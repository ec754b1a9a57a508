//! Registering a slasher under an NCN.

use vstd::prelude::*;
use crate::account_info::{
    address_refused,
    expect_address,
    load_signer,
    load_system_account,
    load_system_program,
    signer_refused,
    system_account_refused,
    system_program_refused,
    AccountData,
    AccountInfo,
};
use crate::config::Config;
use crate::error::{failure, guard, lift, ProgramError};
use crate::ncn_resolver_program_config::{count_refused, NcnResolverProgramConfig};
use crate::pubkey::{seeds_view, with_bump, Pubkey};
use crate::slasher::Slasher;

verus! {

/// The slasher to write to the new account, the seeds that sign for its
/// creation, and the policy as it is to be written back: one slasher more.
#[derive(Debug, PartialEq, Eq)]
pub struct InitializedSlasher {
    pub slasher: Slasher,
    pub seeds: Vec<Vec<u8>>,
    pub ncn_resolver_program_config: NcnResolverProgramConfig,
}

/// A registration with its seeds as sequences of bytes.
pub struct InitializedSlasherView {
    pub slasher: Slasher,
    pub seeds: Seq<Seq<u8>>,
    pub ncn_resolver_program_config: NcnResolverProgramConfig,
}

impl View for InitializedSlasher {
    type V = InitializedSlasherView;

    open spec fn view(&self) -> InitializedSlasherView {
        InitializedSlasherView {
            slasher: self.slasher,
            seeds: seeds_view(self.seeds@),
            ncn_resolver_program_config: self.ncn_resolver_program_config,
        }
    }
}

/// The number of accounts of the registration of a slasher.
pub const INITIALIZE_SLASHER_ACCOUNTS: usize = 7;

/// What the registration of a slasher comes to.
///
/// The accounts are, in this order: the configuration, the policy of the
/// NCN, the NCN, the slasher, its admin, its base and the system program.
/// `registry` is what the registry said of the NCN. Admin and base must
/// have signed, and the account must be free and lie at the address
/// derived for the base.
///
/// The slasher gets the slasher count of the policy as its index and its
/// admin as its delegate admin, and the policy counts one slasher more.
pub open spec fn initialize_slasher_spec(
    program_id: Pubkey,
    accounts: Seq<AccountInfo>,
    registry: Result<(), ProgramError>,
) -> Result<InitializedSlasherView, ProgramError> {
    if accounts.len() != INITIALIZE_SLASHER_ACCOUNTS {
        Err(ProgramError::NotEnoughAccountKeys)
    } else {
        let policy = accounts[1].data->NcnResolverProgramConfig_0;
        let ncn = accounts[2];
        let admin = accounts[4];
        let base = accounts[5];
        let address = Slasher::address_spec(program_id, base.key);
        guard(Config::load_spec(program_id, accounts[0], false),
        guard(NcnResolverProgramConfig::load_spec(program_id, accounts[1], ncn.key, true),
        guard(failure(registry),
        guard(system_account_refused(accounts[3], true),
        guard(signer_refused(admin, true),
        guard(signer_refused(base, false),
        guard(system_program_refused(accounts[6]),
        guard(address_refused(address, accounts[3]),
        guard(count_refused(policy.slasher_count),
            Ok(InitializedSlasherView {
                slasher: Slasher {
                    base: base.key,
                    admin: admin.key,
                    delegate_admin: admin.key,
                    index: policy.slasher_count,
                    bump: address->Some_0.1,
                },
                seeds: Slasher::seeds_spec(base.key).push(seq![address->Some_0.1]),
                ncn_resolver_program_config: policy.with_one_more_slasher(),
            })
        )))))))))
    }
}

/// Whether the registration of a slasher is in order: the accounts are
/// what they should be, the registry has nothing to object, admin and base
/// signed, and the count of the policy can go up.
pub open spec fn initialize_slasher_in_order(
    program_id: Pubkey,
    accounts: Seq<AccountInfo>,
    registry: Result<(), ProgramError>,
) -> bool {
    &&& accounts.len() == INITIALIZE_SLASHER_ACCOUNTS
    &&& Config::load_spec(program_id, accounts[0], false) is None
    &&& NcnResolverProgramConfig::load_spec(program_id, accounts[1], accounts[2].key, true) is None
    &&& registry is Ok
    &&& system_account_refused(accounts[3], true) is None
    &&& signer_refused(accounts[4], true) is None
    &&& signer_refused(accounts[5], false) is None
    &&& system_program_refused(accounts[6]) is None
    &&& Slasher::address_spec(program_id, accounts[5].key) matches Some((key, _))
    &&& key == accounts[3].key@
    &&& accounts[1].data->NcnResolverProgramConfig_0.slasher_count < u64::MAX
}

/// A registration succeeds exactly where it is in order, and then gives
/// the slasher the slasher count of the policy as its index and leaves the
/// policy with one slasher more.
pub proof fn lemma_initialize_slasher_in_order(
    program_id: Pubkey,
    accounts: Seq<AccountInfo>,
    registry: Result<(), ProgramError>,
)
    ensures
        initialize_slasher_spec(program_id, accounts, registry) is Ok
            <==> initialize_slasher_in_order(program_id, accounts, registry),
        initialize_slasher_in_order(program_id, accounts, registry) ==> ({
            let policy = accounts[1].data->NcnResolverProgramConfig_0;
            let bump = Slasher::address_spec(program_id, accounts[5].key)->Some_0.1;
            initialize_slasher_spec(program_id, accounts, registry) == Ok::<_, ProgramError>(
                InitializedSlasherView {
                    slasher: Slasher {
                        base: accounts[5].key,
                        admin: accounts[4].key,
                        delegate_admin: accounts[4].key,
                        index: policy.slasher_count,
                        bump,
                    },
                    seeds: Slasher::seeds_spec(accounts[5].key).push(seq![bump]),
                    ncn_resolver_program_config: policy.with_one_more_slasher(),
                },
            )
        }),
{
}

/// Decides the registration of a slasher.
pub fn process_initialize_slasher(
    program_id: &Pubkey,
    accounts: &[AccountInfo],
    registry: Result<(), ProgramError>,
) -> (res: Result<InitializedSlasher, ProgramError>)
    ensures
        match initialize_slasher_spec(*program_id, accounts@, registry) {
            Ok(registered) => res matches Ok(r) && r@ == registered,
            Err(e) => res == Err::<InitializedSlasher, _>(e),
        },
{
    if accounts.len() != INITIALIZE_SLASHER_ACCOUNTS {
        return Err(ProgramError::NotEnoughAccountKeys);
    }
    let ncn = &accounts[2];
    let admin = &accounts[4];
    let base = &accounts[5];

    Config::load(program_id, &accounts[0], false)?;
    NcnResolverProgramConfig::load(program_id, &accounts[1], ncn, true)?;
    let mut policy = match accounts[1].data {
        AccountData::NcnResolverProgramConfig(policy) => policy,
        _ => {
            return Err(ProgramError::InvalidAccountData);
        },
    };
    registry?;
    load_system_account(&accounts[3], true)?;
    load_signer(admin, true)?;
    load_signer(base, false)?;
    load_system_program(&accounts[6])?;

    let (bump, seeds) = expect_address(
        Slasher::find_program_address(program_id, &base.key),
        &accounts[3],
    )?;
    let slasher = Slasher::new(base.key, admin.key, policy.slasher_count(), bump);
    lift(policy.increment_slasher_count())?;

    Ok(
        InitializedSlasher {
            slasher,
            seeds: with_bump(seeds, bump),
            ncn_resolver_program_config: policy,
        },
    )
}

} // verus!
