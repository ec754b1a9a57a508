//! The policy of one NCN: how long a veto may come, how long an executed
//! proposal is kept, who assigns resolvers, and how many resolvers and
//! slashers there are.

use vstd::prelude::*;
use vstd::string::StringSliceAdditionalSpecFns;
use crate::account_info::{AccountData, AccountInfo};
use crate::error::{custom, failure, ProgramError, ResolverError};
use crate::pubkey::{program_address, seeds_view, tag_seed, try_find_program_address, Pubkey};

verus! {

/// The policy of one NCN.
#[derive(Clone, Copy, Debug, PartialEq, Eq)]
pub struct NcnResolverProgramConfig {
    /// Who may assign a resolver to a slash proposal. Set at creation.
    pub resolver_admin: Pubkey,
    /// The length of the veto window, in slots.
    pub veto_duration: u64,
    /// By how many slots an execution moves the delete deadline on.
    pub delete_slash_proposal_duration: u64,
    /// The number of resolvers registered under the NCN.
    pub resolver_count: u64,
    /// The number of slashers registered under the NCN.
    pub slasher_count: u64,
    /// The bump seed of its address.
    pub bump: u8,
}

/// Why a count cannot go up by one: it is at its limit.
pub open spec fn count_refused(count: u64) -> Option<ProgramError> {
    if count == u64::MAX {
        Some(custom(ResolverError::ArithmeticOverflow))
    } else {
        None
    }
}

impl NcnResolverProgramConfig {
    /// The policy as it is created: no resolver and no slasher registered
    /// yet.
    pub fn new(
        resolver_admin: Pubkey,
        veto_duration: u64,
        delete_slash_proposal_duration: u64,
        bump: u8,
    ) -> (config: Self)
        ensures
            config == (NcnResolverProgramConfig {
                resolver_admin,
                veto_duration,
                delete_slash_proposal_duration,
                resolver_count: 0,
                slasher_count: 0,
                bump,
            }),
    {
        NcnResolverProgramConfig {
            resolver_admin,
            veto_duration,
            delete_slash_proposal_duration,
            resolver_count: 0,
            slasher_count: 0,
            bump,
        }
    }

    pub fn veto_duration(&self) -> (slots: u64)
        ensures
            slots == self.veto_duration,
    {
        self.veto_duration
    }

    pub fn delete_slash_proposal_duration(&self) -> (slots: u64)
        ensures
            slots == self.delete_slash_proposal_duration,
    {
        self.delete_slash_proposal_duration
    }

    pub fn resolver_count(&self) -> (count: u64)
        ensures
            count == self.resolver_count,
    {
        self.resolver_count
    }

    pub fn slasher_count(&self) -> (count: u64)
        ensures
            count == self.slasher_count,
    {
        self.slasher_count
    }

    /// The policy after one more slasher was registered.
    pub open spec fn with_one_more_slasher(self) -> NcnResolverProgramConfig {
        NcnResolverProgramConfig { slasher_count: (self.slasher_count + 1) as u64, ..self }
    }

    /// Counts one more slasher. Where the count is at its limit, it fails
    /// and leaves the policy as it was.
    pub fn increment_slasher_count(&mut self) -> (res: Result<(), ResolverError>)
        ensures
            old(self).slasher_count < u64::MAX ==> res is Ok && *final(self) == old(
                self,
            ).with_one_more_slasher(),
            old(self).slasher_count == u64::MAX ==> res == Err::<(), _>(
                ResolverError::ArithmeticOverflow,
            ) && *final(self) == *old(self),
    {
        match self.slasher_count.checked_add(1) {
            Some(count) => {
                self.slasher_count = count;
                Ok(())
            },
            None => Err(ResolverError::ArithmeticOverflow),
        }
    }

    /// The policy after one more resolver was registered.
    pub open spec fn incremented(self) -> NcnResolverProgramConfig {
        NcnResolverProgramConfig { resolver_count: (self.resolver_count + 1) as u64, ..self }
    }

    /// Counts one more resolver. Where the count is at its limit, it fails
    /// and leaves the policy as it was.
    pub fn increment_resolver_count(&mut self) -> (res: Result<(), ResolverError>)
        ensures
            old(self).resolver_count < u64::MAX ==> res is Ok && *final(self) == old(
                self,
            ).incremented(),
            old(self).resolver_count == u64::MAX ==> res == Err::<(), _>(
                ResolverError::ArithmeticOverflow,
            ) && *final(self) == *old(self),
    {
        match self.resolver_count.checked_add(1) {
            Some(count) => {
                self.resolver_count = count;
                Ok(())
            },
            None => Err(ResolverError::ArithmeticOverflow),
        }
    }

    /// Why the given key is refused as the one that may assign resolvers.
    pub open spec fn resolver_admin_refused(&self, candidate: Pubkey) -> Option<ProgramError> {
        if self.resolver_admin == candidate {
            None
        } else {
            Some(ProgramError::InvalidAccountData)
        }
    }

    /// Refuses a key that is not the one that may assign resolvers.
    pub fn check_resolver_admin(&self, candidate: &Pubkey) -> (res: Result<(), ProgramError>)
        ensures
            failure(res) == self.resolver_admin_refused(*candidate),
    {
        if self.resolver_admin != *candidate {
            return Err(ProgramError::InvalidAccountData);
        }
        Ok(())
    }

    /// The seeds of the address of the policy of an NCN.
    pub open spec fn seeds_spec(ncn: Pubkey) -> Seq<Seq<u8>> {
        seq!["ncn_resolver_program_config".spec_bytes(), ncn@]
    }

    pub fn seeds(ncn: &Pubkey) -> (seeds: Vec<Vec<u8>>)
        ensures
            seeds_view(seeds@) == Self::seeds_spec(*ncn),
    {
        let mut seeds: Vec<Vec<u8>> = Vec::new();
        seeds.push(tag_seed("ncn_resolver_program_config"));
        seeds.push(ncn.to_vec());
        assert(seeds_view(seeds@) =~= Self::seeds_spec(*ncn));
        seeds
    }

    /// The address of the policy of an NCN and its bump seed, where there
    /// is one.
    pub open spec fn address_spec(program_id: Pubkey, ncn: Pubkey) -> Option<(Seq<u8>, u8)> {
        program_address(Self::seeds_spec(ncn), program_id@)
    }

    /// Derives the address of the policy, and hands back the seeds too.
    pub fn find_program_address(program_id: &Pubkey, ncn: &Pubkey) -> (found: Option<
        (Pubkey, u8, Vec<Vec<u8>>),
    >)
        ensures
            match found {
                Some((key, bump, seeds)) => {
                    &&& Self::address_spec(*program_id, *ncn) == Some((key@, bump))
                    &&& seeds_view(seeds@) == Self::seeds_spec(*ncn)
                },
                None => Self::address_spec(*program_id, *ncn) is None,
            },
    {
        let seeds = Self::seeds(ncn);
        match try_find_program_address(&seeds, program_id) {
            Some((key, bump)) => Some((key, bump, seeds)),
            None => None,
        }
    }

    /// Whether an account holds the policy of the NCN: the program owns
    /// it, it holds a policy, it can be written where that is expected,
    /// and it lies at the address derived for the NCN.
    pub open spec fn loads(
        program_id: Pubkey,
        account: AccountInfo,
        ncn: Pubkey,
        expect_writable: bool,
    ) -> bool {
        &&& account.owner == program_id
        &&& account.data is NcnResolverProgramConfig
        &&& expect_writable ==> account.is_writable
        &&& Self::address_spec(program_id, ncn) matches Some((key, _))
        &&& key == account.key@
    }

    /// Why loading the account fails, if it does.
    pub open spec fn load_spec(
        program_id: Pubkey,
        account: AccountInfo,
        ncn: Pubkey,
        expect_writable: bool,
    ) -> Option<ProgramError> {
        if Self::loads(program_id, account, ncn, expect_writable) {
            None
        } else {
            Some(account.refusal(program_id))
        }
    }

    /// Refuses an account that does not hold the policy of the NCN.
    pub fn load(
        program_id: &Pubkey,
        account: &AccountInfo,
        ncn: &AccountInfo,
        expect_writable: bool,
    ) -> (res: Result<(), ProgramError>)
        ensures
            failure(res) == Self::load_spec(*program_id, *account, ncn.key, expect_writable),
    {
        let holds = match account.data {
            AccountData::NcnResolverProgramConfig(_) => true,
            _ => false,
        };
        account.check_record(program_id, holds, expect_writable)?;
        account.check_address(Self::find_program_address(program_id, &ncn.key))
    }
}

} // verus!
