//! Creating the policy of an NCN.

use vstd::prelude::*;
use crate::account_info::{
    address_refused,
    expect_address,
    load_signer,
    load_system_account,
    load_system_program,
    signer_refused,
    system_account_refused,
    system_program_refused,
    AccountInfo,
};
use crate::config::Config;
use crate::error::{custom, failure, guard, ProgramError, ResolverError};
use crate::ncn_resolver_program_config::NcnResolverProgramConfig;
use crate::pubkey::{seeds_view, with_bump, Pubkey};

verus! {

/// The policy to write to the new account, and the seeds that sign for its
/// creation.
#[derive(Debug, PartialEq, Eq)]
pub struct InitializedNcnResolverProgramConfig {
    pub ncn_resolver_program_config: NcnResolverProgramConfig,
    pub seeds: Vec<Vec<u8>>,
}

/// The number of accounts of the creation of a policy.
pub const INITIALIZE_NCN_RESOLVER_PROGRAM_CONFIG_ACCOUNTS: usize = 5;

/// Why a key is refused as the admin of the NCN: the registry has
/// another.
pub open spec fn ncn_admin_refused(ncn_admin: Pubkey, candidate: Pubkey) -> Option<ProgramError> {
    if ncn_admin == candidate {
        None
    } else {
        Some(custom(ResolverError::NcnAdminInvalid))
    }
}

/// What the creation of the policy of an NCN comes to.
///
/// The accounts are, in this order: the configuration, the NCN, the policy,
/// the admin and the system program. `ncn_admin` is the admin of the NCN
/// as the registry has it, or why the registry refused the NCN.
///
/// Only the admin of the NCN creates its policy: the admin must have
/// signed and be that key, and is the one who may assign resolvers from
/// then on. The account must be free and lie at the address derived for
/// the policy of the NCN. The policy starts with no resolver and no
/// slasher.
pub open spec fn initialize_resolver_program_config_spec(
    program_id: Pubkey,
    accounts: Seq<AccountInfo>,
    veto_duration: u64,
    delete_slash_proposal_duration: u64,
    ncn_admin: Result<Pubkey, ProgramError>,
) -> Result<(NcnResolverProgramConfig, Seq<Seq<u8>>), ProgramError> {
    if accounts.len() != INITIALIZE_NCN_RESOLVER_PROGRAM_CONFIG_ACCOUNTS {
        Err(ProgramError::NotEnoughAccountKeys)
    } else {
        let ncn = accounts[1];
        let address = NcnResolverProgramConfig::address_spec(program_id, ncn.key);
        guard(Config::load_spec(program_id, accounts[0], false),
        guard(failure(ncn_admin),
        guard(system_account_refused(accounts[2], true),
        guard(signer_refused(accounts[3], true),
        guard(system_program_refused(accounts[4]),
        guard(ncn_admin_refused(ncn_admin->Ok_0, accounts[3].key),
        guard(address_refused(address, accounts[2]),
            Ok((
                NcnResolverProgramConfig {
                    resolver_admin: accounts[3].key,
                    veto_duration,
                    delete_slash_proposal_duration,
                    resolver_count: 0,
                    slasher_count: 0,
                    bump: address->Some_0.1,
                },
                NcnResolverProgramConfig::seeds_spec(ncn.key).push(seq![address->Some_0.1]),
            ))
        )))))))
    }
}

/// Whether the creation of the policy of an NCN is in order: the
/// configuration is what it should be, the registry knows the NCN, the
/// account is free and lies at the address derived for the policy, and the
/// signer is the admin of the NCN.
pub open spec fn initialize_resolver_program_config_in_order(
    program_id: Pubkey,
    accounts: Seq<AccountInfo>,
    ncn_admin: Result<Pubkey, ProgramError>,
) -> bool {
    &&& accounts.len() == INITIALIZE_NCN_RESOLVER_PROGRAM_CONFIG_ACCOUNTS
    &&& Config::load_spec(program_id, accounts[0], false) is None
    &&& ncn_admin matches Ok(admin)
    &&& system_account_refused(accounts[2], true) is None
    &&& signer_refused(accounts[3], true) is None
    &&& system_program_refused(accounts[4]) is None
    &&& admin == accounts[3].key
    &&& NcnResolverProgramConfig::address_spec(program_id, accounts[1].key) matches Some((key, _))
    &&& key == accounts[2].key@
}

/// The creation succeeds exactly where it is in order, and then gives the
/// policy with the two durations asked for, the admin of the NCN as the
/// one who assigns resolvers, and both counts at zero.
pub proof fn lemma_initialize_resolver_program_config_in_order(
    program_id: Pubkey,
    accounts: Seq<AccountInfo>,
    veto_duration: u64,
    delete_slash_proposal_duration: u64,
    ncn_admin: Result<Pubkey, ProgramError>,
)
    ensures
        initialize_resolver_program_config_spec(
            program_id,
            accounts,
            veto_duration,
            delete_slash_proposal_duration,
            ncn_admin,
        ) is Ok <==> initialize_resolver_program_config_in_order(program_id, accounts, ncn_admin),
        initialize_resolver_program_config_in_order(program_id, accounts, ncn_admin) ==> ({
            let bump = NcnResolverProgramConfig::address_spec(
                program_id,
                accounts[1].key,
            )->Some_0.1;
            initialize_resolver_program_config_spec(
                program_id,
                accounts,
                veto_duration,
                delete_slash_proposal_duration,
                ncn_admin,
            ) == Ok::<_, ProgramError>(
                (
                    NcnResolverProgramConfig {
                        resolver_admin: ncn_admin->Ok_0,
                        veto_duration,
                        delete_slash_proposal_duration,
                        resolver_count: 0,
                        slasher_count: 0,
                        bump,
                    },
                    NcnResolverProgramConfig::seeds_spec(accounts[1].key).push(seq![bump]),
                ),
            )
        }),
{
}

/// Decides the creation of the policy of an NCN.
pub fn process_initialize_resolver_program_config(
    program_id: &Pubkey,
    accounts: &[AccountInfo],
    veto_duration: u64,
    delete_slash_proposal_duration: u64,
    ncn_admin: Result<Pubkey, ProgramError>,
) -> (res: Result<InitializedNcnResolverProgramConfig, ProgramError>)
    ensures
        match initialize_resolver_program_config_spec(
            *program_id,
            accounts@,
            veto_duration,
            delete_slash_proposal_duration,
            ncn_admin,
        ) {
            Ok((policy, seeds)) => res matches Ok(created)
                && created.ncn_resolver_program_config == policy && seeds_view(created.seeds@)
                == seeds,
            Err(e) => res == Err::<InitializedNcnResolverProgramConfig, _>(e),
        },
{
    if accounts.len() != INITIALIZE_NCN_RESOLVER_PROGRAM_CONFIG_ACCOUNTS {
        return Err(ProgramError::NotEnoughAccountKeys);
    }
    Config::load(program_id, &accounts[0], false)?;
    let ncn_admin = ncn_admin?;
    load_system_account(&accounts[2], true)?;
    load_signer(&accounts[3], true)?;
    load_system_program(&accounts[4])?;
    if ncn_admin != accounts[3].key {
        return Err(ProgramError::Custom(ResolverError::NcnAdminInvalid.code()));
    }

    let (bump, seeds) = expect_address(
        NcnResolverProgramConfig::find_program_address(program_id, &accounts[1].key),
        &accounts[2],
    )?;
    Ok(
        InitializedNcnResolverProgramConfig {
            ncn_resolver_program_config: NcnResolverProgramConfig::new(
                accounts[3].key,
                veto_duration,
                delete_slash_proposal_duration,
                bump,
            ),
            seeds: with_bump(seeds, bump),
        },
    )
}

} // verus!
