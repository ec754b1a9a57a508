//! Creating the configuration of the program.

use vstd::prelude::*;
use crate::account_info::{
    address_refused,
    expect_address,
    load_signer,
    load_system_account,
    load_system_program,
    signer_refused,
    system_account_refused,
    system_program_refused,
    AccountInfo,
};
use crate::config::{Config, DEFAULT_SLOTS_PER_EPOCH};
use crate::error::{guard, ProgramError};
use crate::pubkey::{seeds_view, with_bump, Pubkey};

verus! {

/// The configuration to write to the new account, and the seeds that sign
/// for its creation.
#[derive(Debug, PartialEq, Eq)]
pub struct InitializedConfig {
    pub config: Config,
    pub seeds: Vec<Vec<u8>>,
}

/// The number of accounts of the creation of the configuration.
pub const INITIALIZE_CONFIG_ACCOUNTS: usize = 5;

/// What the creation of the configuration comes to.
///
/// The accounts are, in this order: the configuration, the admin, the
/// restaking program, the vault program and the system program. The admin
/// must have signed, and the account must be free and lie at the address
/// derived for the configuration.
pub open spec fn initialize_config_spec(program_id: Pubkey, accounts: Seq<AccountInfo>) -> Result<
    (Config, Seq<Seq<u8>>),
    ProgramError,
> {
    if accounts.len() != INITIALIZE_CONFIG_ACCOUNTS {
        Err(ProgramError::NotEnoughAccountKeys)
    } else {
        let address = Config::address_spec(program_id);
        guard(system_account_refused(accounts[0], true),
        guard(signer_refused(accounts[1], true),
        guard(system_program_refused(accounts[4]),
        guard(address_refused(address, accounts[0]),
            Ok((
                Config {
                    admin: accounts[1].key,
                    jito_restaking_program: accounts[2].key,
                    jito_vault_program: accounts[3].key,
                    epoch_length: DEFAULT_SLOTS_PER_EPOCH,
                    bump: address->Some_0.1,
                },
                Config::seeds_spec().push(seq![address->Some_0.1]),
            ))
        ))))
    }
}

/// Whether the creation of the configuration is in order: the account is
/// free and lies at the address derived for the configuration, and the
/// admin signed.
pub open spec fn initialize_config_in_order(program_id: Pubkey, accounts: Seq<AccountInfo>) -> bool {
    &&& accounts.len() == INITIALIZE_CONFIG_ACCOUNTS
    &&& system_account_refused(accounts[0], true) is None
    &&& signer_refused(accounts[1], true) is None
    &&& system_program_refused(accounts[4]) is None
    &&& Config::address_spec(program_id) matches Some((key, _))
    &&& key == accounts[0].key@
}

/// The creation succeeds exactly where it is in order, and then gives the
/// configuration that names the signer as admin and the two programs that
/// were passed, with an epoch of the default length.
pub proof fn lemma_initialize_config_in_order(program_id: Pubkey, accounts: Seq<AccountInfo>)
    ensures
        initialize_config_spec(program_id, accounts) is Ok <==> initialize_config_in_order(
            program_id,
            accounts,
        ),
        initialize_config_in_order(program_id, accounts) ==> ({
            let bump = Config::address_spec(program_id)->Some_0.1;
            initialize_config_spec(program_id, accounts) == Ok::<_, ProgramError>(
                (
                    Config {
                        admin: accounts[1].key,
                        jito_restaking_program: accounts[2].key,
                        jito_vault_program: accounts[3].key,
                        epoch_length: DEFAULT_SLOTS_PER_EPOCH,
                        bump,
                    },
                    Config::seeds_spec().push(seq![bump]),
                ),
            )
        }),
{
}

/// Decides the creation of the configuration.
pub fn process_initialize_config(program_id: &Pubkey, accounts: &[AccountInfo]) -> (res: Result<
    InitializedConfig,
    ProgramError,
>)
    ensures
        match initialize_config_spec(*program_id, accounts@) {
            Ok((config, seeds)) => res matches Ok(created) && created.config == config
                && seeds_view(created.seeds@) == seeds,
            Err(e) => res == Err::<InitializedConfig, _>(e),
        },
{
    if accounts.len() != INITIALIZE_CONFIG_ACCOUNTS {
        return Err(ProgramError::NotEnoughAccountKeys);
    }
    load_system_account(&accounts[0], true)?;
    load_signer(&accounts[1], true)?;
    load_system_program(&accounts[4])?;

    let (bump, seeds) = expect_address(Config::find_program_address(program_id), &accounts[0])?;
    Ok(
        InitializedConfig {
            config: Config::new(accounts[1].key, accounts[2].key, accounts[3].key, bump),
            seeds: with_bump(seeds, bump),
        },
    )
}

} // verus!
