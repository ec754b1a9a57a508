//! Registering a resolver under an NCN.

use vstd::prelude::*;
use crate::account_info::{
    address_refused,
    expect_address,
    load_signer,
    load_system_account,
    load_system_program,
    signer_refused,
    system_account_refused,
    system_program_refused,
    AccountData,
    AccountInfo,
};
use crate::config::Config;
use crate::error::{failure, guard, lift, ProgramError};
use crate::ncn_resolver_program_config::{count_refused, NcnResolverProgramConfig};
use crate::pubkey::{seeds_view, with_bump, Pubkey};
use crate::resolver::Resolver;

verus! {

/// The resolver to write to the new account, the seeds that sign for its
/// creation, and the policy as it is to be written back: one resolver more.
#[derive(Debug, PartialEq, Eq)]
pub struct InitializedResolver {
    pub resolver: Resolver,
    pub seeds: Vec<Vec<u8>>,
    pub ncn_resolver_program_config: NcnResolverProgramConfig,
}

/// A registration with its seeds as sequences of bytes.
pub struct InitializedResolverView {
    pub resolver: Resolver,
    pub seeds: Seq<Seq<u8>>,
    pub ncn_resolver_program_config: NcnResolverProgramConfig,
}

impl View for InitializedResolver {
    type V = InitializedResolverView;

    open spec fn view(&self) -> InitializedResolverView {
        InitializedResolverView {
            resolver: self.resolver,
            seeds: seeds_view(self.seeds@),
            ncn_resolver_program_config: self.ncn_resolver_program_config,
        }
    }
}

/// The number of accounts of the registration of a resolver.
pub const INITIALIZE_RESOLVER_ACCOUNTS: usize = 7;

/// What the registration of a resolver comes to.
///
/// The accounts are, in this order: the configuration, the policy of the
/// NCN, the NCN, the resolver, its admin, its base and the system program.
/// `registry` is what the registry said of the NCN. Admin and base must
/// have signed, and the account must be free and lie at the address
/// derived for the base.
///
/// The resolver gets the count of the policy as its index, and the policy
/// counts one more.
pub open spec fn initialize_resolver_spec(
    program_id: Pubkey,
    accounts: Seq<AccountInfo>,
    registry: Result<(), ProgramError>,
) -> Result<InitializedResolverView, ProgramError> {
    if accounts.len() != INITIALIZE_RESOLVER_ACCOUNTS {
        Err(ProgramError::NotEnoughAccountKeys)
    } else {
        let policy = accounts[1].data->NcnResolverProgramConfig_0;
        let ncn = accounts[2];
        let admin = accounts[4];
        let base = accounts[5];
        let address = Resolver::address_spec(program_id, base.key);
        guard(Config::load_spec(program_id, accounts[0], false),
        guard(NcnResolverProgramConfig::load_spec(program_id, accounts[1], ncn.key, true),
        guard(failure(registry),
        guard(system_account_refused(accounts[3], true),
        guard(signer_refused(admin, true),
        guard(signer_refused(base, false),
        guard(system_program_refused(accounts[6]),
        guard(address_refused(address, accounts[3]),
        guard(count_refused(policy.resolver_count),
            Ok(InitializedResolverView {
                resolver: Resolver {
                    base: base.key,
                    admin: admin.key,
                    index: policy.resolver_count,
                    bump: address->Some_0.1,
                },
                seeds: Resolver::seeds_spec(base.key).push(seq![address->Some_0.1]),
                ncn_resolver_program_config: policy.incremented(),
            })
        )))))))))
    }
}

/// Whether the registration of a resolver is in order: the accounts are
/// what they should be, the registry has nothing to object, admin and base
/// signed, and the count of the policy can go up.
pub open spec fn initialize_resolver_in_order(
    program_id: Pubkey,
    accounts: Seq<AccountInfo>,
    registry: Result<(), ProgramError>,
) -> bool {
    &&& accounts.len() == INITIALIZE_RESOLVER_ACCOUNTS
    &&& Config::load_spec(program_id, accounts[0], false) is None
    &&& NcnResolverProgramConfig::load_spec(program_id, accounts[1], accounts[2].key, true) is None
    &&& registry is Ok
    &&& system_account_refused(accounts[3], true) is None
    &&& signer_refused(accounts[4], true) is None
    &&& signer_refused(accounts[5], false) is None
    &&& system_program_refused(accounts[6]) is None
    &&& Resolver::address_spec(program_id, accounts[5].key) matches Some((key, _))
    &&& key == accounts[3].key@
    &&& accounts[1].data->NcnResolverProgramConfig_0.resolver_count < u64::MAX
}

/// A registration succeeds exactly where it is in order, and then gives
/// the resolver the resolver count of the policy as its index and leaves
/// the policy with one resolver more.
pub proof fn lemma_initialize_resolver_in_order(
    program_id: Pubkey,
    accounts: Seq<AccountInfo>,
    registry: Result<(), ProgramError>,
)
    ensures
        initialize_resolver_spec(program_id, accounts, registry) is Ok
            <==> initialize_resolver_in_order(program_id, accounts, registry),
        initialize_resolver_in_order(program_id, accounts, registry) ==> ({
            let policy = accounts[1].data->NcnResolverProgramConfig_0;
            let bump = Resolver::address_spec(program_id, accounts[5].key)->Some_0.1;
            initialize_resolver_spec(program_id, accounts, registry) == Ok::<_, ProgramError>(
                InitializedResolverView {
                    resolver: Resolver {
                        base: accounts[5].key,
                        admin: accounts[4].key,
                        index: policy.resolver_count,
                        bump,
                    },
                    seeds: Resolver::seeds_spec(accounts[5].key).push(seq![bump]),
                    ncn_resolver_program_config: policy.incremented(),
                },
            )
        }),
{
}

/// Decides the registration of a resolver.
pub fn process_initialize_resolver(
    program_id: &Pubkey,
    accounts: &[AccountInfo],
    registry: Result<(), ProgramError>,
) -> (res: Result<InitializedResolver, ProgramError>)
    ensures
        match initialize_resolver_spec(*program_id, accounts@, registry) {
            Ok(registered) => res matches Ok(r) && r@ == registered,
            Err(e) => res == Err::<InitializedResolver, _>(e),
        },
{
    if accounts.len() != INITIALIZE_RESOLVER_ACCOUNTS {
        return Err(ProgramError::NotEnoughAccountKeys);
    }
    let ncn = &accounts[2];
    let admin = &accounts[4];
    let base = &accounts[5];

    Config::load(program_id, &accounts[0], false)?;
    NcnResolverProgramConfig::load(program_id, &accounts[1], ncn, true)?;
    let mut policy = match accounts[1].data {
        AccountData::NcnResolverProgramConfig(policy) => policy,
        _ => {
            return Err(ProgramError::InvalidAccountData);
        },
    };
    registry?;
    load_system_account(&accounts[3], true)?;
    load_signer(admin, true)?;
    load_signer(base, false)?;
    load_system_program(&accounts[6])?;

    let (bump, seeds) = expect_address(
        Resolver::find_program_address(program_id, &base.key),
        &accounts[3],
    )?;
    let resolver = Resolver::new(base.key, admin.key, policy.resolver_count(), bump);
    lift(policy.increment_resolver_count())?;

    Ok(
        InitializedResolver {
            resolver,
            seeds: with_bump(seeds, bump),
            ncn_resolver_program_config: policy,
        },
    )
}

} // verus!
