//! The configuration of the program: set once, read by every operation.

use vstd::prelude::*;
use vstd::string::StringSliceAdditionalSpecFns;
use crate::account_info::{AccountData, AccountInfo};
use crate::error::{failure, ProgramError, ResolverError};
use crate::pubkey::{program_address, seeds_view, tag_seed, try_find_program_address, Pubkey};

verus! {

/// The length of an epoch, in slots, that a new configuration gets.
pub const DEFAULT_SLOTS_PER_EPOCH: u64 = 432_000;

/// The configuration of the program.
#[derive(Clone, Copy, Debug, PartialEq, Eq)]
pub struct Config {
    /// Who created the configuration.
    pub admin: Pubkey,
    /// The restaking program, which keeps the registry of NCNs and
    /// operators.
    pub jito_restaking_program: Pubkey,
    /// The vault program, which holds what is slashed.
    pub jito_vault_program: Pubkey,
    /// The length of an epoch, in slots.
    pub epoch_length: u64,
    /// The bump seed of its address.
    pub bump: u8,
}

impl Config {
    /// The configuration as it is created.
    pub fn new(
        admin: Pubkey,
        jito_restaking_program: Pubkey,
        jito_vault_program: Pubkey,
        bump: u8,
    ) -> (config: Self)
        ensures
            config == (Config {
                admin,
                jito_restaking_program,
                jito_vault_program,
                epoch_length: DEFAULT_SLOTS_PER_EPOCH,
                bump,
            }),
    {
        Config {
            admin,
            jito_restaking_program,
            jito_vault_program,
            epoch_length: DEFAULT_SLOTS_PER_EPOCH,
            bump,
        }
    }

    pub fn epoch_length(&self) -> (slots: u64)
        ensures
            slots == self.epoch_length,
    {
        self.epoch_length
    }

    /// The epoch that a slot lies in: the slot divided by the length of an
    /// epoch, rounded down. With an epoch length of zero there is none.
    pub open spec fn epoch_spec(&self, slot: u64) -> Result<u64, ResolverError> {
        if self.epoch_length == 0 {
            Err(ResolverError::DivisionByZero)
        } else {
            Ok((slot / self.epoch_length) as u64)
        }
    }

    /// Computes the epoch that a slot lies in.
    pub fn get_epoch(&self, slot: u64) -> (res: Result<u64, ResolverError>)
        ensures
            res == self.epoch_spec(slot),
    {
        if self.epoch_length == 0 {
            return Err(ResolverError::DivisionByZero);
        }
        Ok(slot / self.epoch_length)
    }

    /// The seeds of the address of the configuration.
    pub open spec fn seeds_spec() -> Seq<Seq<u8>> {
        seq!["config".spec_bytes()]
    }

    pub fn seeds() -> (seeds: Vec<Vec<u8>>)
        ensures
            seeds_view(seeds@) == Self::seeds_spec(),
    {
        let mut seeds: Vec<Vec<u8>> = Vec::new();
        seeds.push(tag_seed("config"));
        assert(seeds_view(seeds@) =~= Self::seeds_spec());
        seeds
    }

    /// The address of the configuration and its bump seed, where there is
    /// one.
    pub open spec fn address_spec(program_id: Pubkey) -> Option<(Seq<u8>, u8)> {
        program_address(Self::seeds_spec(), program_id@)
    }

    /// Derives the address of the configuration, and hands back the seeds
    /// too.
    pub fn find_program_address(program_id: &Pubkey) -> (found: Option<
        (Pubkey, u8, Vec<Vec<u8>>),
    >)
        ensures
            match found {
                Some((key, bump, seeds)) => {
                    &&& Self::address_spec(*program_id) == Some((key@, bump))
                    &&& seeds_view(seeds@) == Self::seeds_spec()
                },
                None => Self::address_spec(*program_id) is None,
            },
    {
        let seeds = Self::seeds();
        match try_find_program_address(&seeds, program_id) {
            Some((key, bump)) => Some((key, bump, seeds)),
            None => None,
        }
    }

    /// Whether an account holds the configuration: the program owns it, it
    /// holds a configuration, it can be written where that is expected,
    /// and it lies at the derived address.
    pub open spec fn loads(program_id: Pubkey, account: AccountInfo, expect_writable: bool) -> bool {
        &&& account.owner == program_id
        &&& account.data is Config
        &&& expect_writable ==> account.is_writable
        &&& Self::address_spec(program_id) matches Some((key, _))
        &&& key == account.key@
    }

    /// Why loading the account fails, if it does.
    pub open spec fn load_spec(program_id: Pubkey, account: AccountInfo, expect_writable: bool) -> Option<ProgramError> {
        if Self::loads(program_id, account, expect_writable) {
            None
        } else {
            Some(account.refusal(program_id))
        }
    }

    /// Refuses an account that does not hold the configuration.
    pub fn load(program_id: &Pubkey, account: &AccountInfo, expect_writable: bool) -> (res: Result<
        (),
        ProgramError,
    >)
        ensures
            failure(res) == Self::load_spec(*program_id, *account, expect_writable),
    {
        let holds = match account.data {
            AccountData::Config(_) => true,
            _ => false,
        };
        account.check_record(program_id, holds, expect_writable)?;
        account.check_address(Self::find_program_address(program_id))
    }
}

} // verus!
