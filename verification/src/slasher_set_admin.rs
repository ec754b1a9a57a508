//! Handing a slasher over to a new admin.

use vstd::prelude::*;
use crate::account_info::{load_signer, signer_refused, AccountData, AccountInfo};
use crate::error::{guard, lift, lifted_failure, ProgramError};
use crate::pubkey::Pubkey;
use crate::slasher::Slasher;

verus! {

/// The number of accounts of a change of admin.
pub const SLASHER_SET_ADMIN_ACCOUNTS: usize = 3;

/// What a change of admin comes to: the slasher as it is to be written, or
/// the first check that fails.
///
/// The accounts are, in this order: the slasher, its admin and the new
/// admin. Both must have signed, and only the admin of the slasher can
/// hand it over. Where the old admin was the delegate admin too, the new
/// one takes that place as well.
pub open spec fn slasher_set_admin_spec(program_id: Pubkey, accounts: Seq<AccountInfo>) -> Result<
    Slasher,
    ProgramError,
> {
    if accounts.len() != SLASHER_SET_ADMIN_ACCOUNTS {
        Err(ProgramError::NotEnoughAccountKeys)
    } else {
        let slasher = accounts[0].data->Slasher_0;
        guard(Slasher::load_spec(program_id, accounts[0], false),
        guard(signer_refused(accounts[1], false),
        guard(signer_refused(accounts[2], false),
        guard(lifted_failure(slasher.admin_refused(accounts[1].key)),
            Ok(slasher.with_admin(accounts[2].key))
        ))))
    }
}

/// Whether a change of admin is in order: the account holds a slasher,
/// both admins signed, and the old one is the admin of the slasher.
pub open spec fn slasher_set_admin_in_order(program_id: Pubkey, accounts: Seq<AccountInfo>) -> bool {
    &&& accounts.len() == SLASHER_SET_ADMIN_ACCOUNTS
    &&& Slasher::load_spec(program_id, accounts[0], false) is None
    &&& signer_refused(accounts[1], false) is None
    &&& signer_refused(accounts[2], false) is None
    &&& accounts[0].data->Slasher_0.admin == accounts[1].key
}

/// A change of admin succeeds exactly where it is in order, and then
/// gives the slasher with the new admin.
pub proof fn lemma_slasher_set_admin_in_order(program_id: Pubkey, accounts: Seq<AccountInfo>)
    ensures
        slasher_set_admin_spec(program_id, accounts) is Ok <==> slasher_set_admin_in_order(
            program_id,
            accounts,
        ),
        slasher_set_admin_in_order(program_id, accounts) ==> slasher_set_admin_spec(
            program_id,
            accounts,
        ) == Ok::<_, ProgramError>(accounts[0].data->Slasher_0.with_admin(accounts[2].key)),
{
}

/// Decides a change of admin.
pub fn process_slasher_set_admin(program_id: &Pubkey, accounts: &[AccountInfo]) -> (res: Result<
    Slasher,
    ProgramError,
>)
    ensures
        res == slasher_set_admin_spec(*program_id, accounts@),
{
    if accounts.len() != SLASHER_SET_ADMIN_ACCOUNTS {
        return Err(ProgramError::NotEnoughAccountKeys);
    }
    Slasher::load(program_id, &accounts[0], false)?;
    let mut slasher = match accounts[0].data {
        AccountData::Slasher(slasher) => slasher,
        _ => {
            return Err(ProgramError::InvalidAccountData);
        },
    };
    load_signer(&accounts[1], false)?;
    load_signer(&accounts[2], false)?;

    lift(slasher.check_admin(&accounts[1].key))?;

    slasher.admin = accounts[2].key;
    slasher.update_secondary_admin(&accounts[1].key, &accounts[2].key);
    Ok(slasher)
}

} // verus!
