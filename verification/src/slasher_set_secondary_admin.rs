//! Naming another delegate admin of a slasher.

use vstd::prelude::*;
use crate::account_info::{load_signer, signer_refused, AccountData, AccountInfo};
use crate::error::{guard, lift, lifted_failure, ProgramError};
use crate::instruction::SlasherAdminRole;
use crate::pubkey::Pubkey;
use crate::slasher::Slasher;

verus! {

/// The number of accounts of a change of a secondary admin.
pub const SLASHER_SET_SECONDARY_ADMIN_ACCOUNTS: usize = 3;

/// The slasher with the given role handed to the given key.
pub open spec fn with_role(slasher: Slasher, role: SlasherAdminRole, new_admin: Pubkey) -> Slasher {
    match role {
        SlasherAdminRole::DelegateAdmin => Slasher { delegate_admin: new_admin, ..slasher },
    }
}

/// What a change of a secondary admin comes to: the slasher as it is to be
/// written, or the first check that fails.
///
/// The accounts are, in this order: the slasher, its admin and the new
/// holder of the role. Only the admin of the slasher, who must have
/// signed, can hand out a role.
pub open spec fn slasher_set_secondary_admin_spec(
    program_id: Pubkey,
    accounts: Seq<AccountInfo>,
    role: SlasherAdminRole,
) -> Result<Slasher, ProgramError> {
    if accounts.len() != SLASHER_SET_SECONDARY_ADMIN_ACCOUNTS {
        Err(ProgramError::NotEnoughAccountKeys)
    } else {
        let slasher = accounts[0].data->Slasher_0;
        guard(Slasher::load_spec(program_id, accounts[0], false),
        guard(signer_refused(accounts[1], false),
        guard(lifted_failure(slasher.admin_refused(accounts[1].key)),
            Ok(with_role(slasher, role, accounts[2].key))
        )))
    }
}

/// Whether a change of a secondary admin is in order: the account holds a
/// slasher, and its admin signed.
pub open spec fn slasher_set_secondary_admin_in_order(
    program_id: Pubkey,
    accounts: Seq<AccountInfo>,
) -> bool {
    &&& accounts.len() == SLASHER_SET_SECONDARY_ADMIN_ACCOUNTS
    &&& Slasher::load_spec(program_id, accounts[0], false) is None
    &&& signer_refused(accounts[1], false) is None
    &&& accounts[0].data->Slasher_0.admin == accounts[1].key
}

/// A change of a secondary admin succeeds exactly where it is in order,
/// and then gives the slasher with the role handed to the new key. The
/// admin itself stays.
pub proof fn lemma_slasher_set_secondary_admin_in_order(
    program_id: Pubkey,
    accounts: Seq<AccountInfo>,
    role: SlasherAdminRole,
)
    ensures
        slasher_set_secondary_admin_spec(program_id, accounts, role) is Ok
            <==> slasher_set_secondary_admin_in_order(program_id, accounts),
        slasher_set_secondary_admin_in_order(program_id, accounts) ==> {
            let slasher = accounts[0].data->Slasher_0;
            &&& slasher_set_secondary_admin_spec(program_id, accounts, role) == Ok::<
                _,
                ProgramError,
            >(with_role(slasher, role, accounts[2].key))
            &&& with_role(slasher, role, accounts[2].key).admin == slasher.admin
        },
{
}

/// Decides a change of a secondary admin.
pub fn process_slasher_set_secondary_admin(
    program_id: &Pubkey,
    accounts: &[AccountInfo],
    role: SlasherAdminRole,
) -> (res: Result<Slasher, ProgramError>)
    ensures
        res == slasher_set_secondary_admin_spec(*program_id, accounts@, role),
{
    if accounts.len() != SLASHER_SET_SECONDARY_ADMIN_ACCOUNTS {
        return Err(ProgramError::NotEnoughAccountKeys);
    }
    Slasher::load(program_id, &accounts[0], false)?;
    let mut slasher = match accounts[0].data {
        AccountData::Slasher(slasher) => slasher,
        _ => {
            return Err(ProgramError::InvalidAccountData);
        },
    };
    load_signer(&accounts[1], false)?;

    lift(slasher.check_admin(&accounts[1].key))?;

    match role {
        SlasherAdminRole::DelegateAdmin => {
            slasher.delegate_admin = accounts[2].key;
        },
    }
    Ok(slasher)
}

} // verus!
