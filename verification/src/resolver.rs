//! The resolver: who may veto the slash proposals assigned to it.

use vstd::prelude::*;
use vstd::string::StringSliceAdditionalSpecFns;
use crate::account_info::{AccountData, AccountInfo};
use crate::error::{failure, ProgramError, ResolverError};
use crate::pubkey::{program_address, seeds_view, tag_seed, try_find_program_address, Pubkey};

verus! {

/// A registered resolver.
#[derive(Clone, Copy, Debug, PartialEq, Eq)]
pub struct Resolver {
    /// The key that its address is derived from.
    pub base: Pubkey,
    /// Who may veto in its name.
    pub admin: Pubkey,
    /// How many resolvers were registered under the NCN before it.
    pub index: u64,
    /// The bump seed of its address.
    pub bump: u8,
}

impl Resolver {
    pub fn new(base: Pubkey, admin: Pubkey, index: u64, bump: u8) -> (resolver: Self)
        ensures
            resolver == (Resolver { base, admin, index, bump }),
    {
        Resolver { base, admin, index, bump }
    }

    pub fn index(&self) -> (index: u64)
        ensures
            index == self.index,
    {
        self.index
    }

    /// Why the given key is refused as the admin of the resolver.
    pub open spec fn admin_refused(&self, candidate: Pubkey) -> Option<ResolverError> {
        if self.admin == candidate {
            None
        } else {
            Some(ResolverError::ResolverAdminInvalid)
        }
    }

    /// Refuses a key that is not the admin of the resolver.
    pub fn check_admin(&self, candidate_resolver_admin: &Pubkey) -> (res: Result<
        (),
        ResolverError,
    >)
        ensures
            failure(res) == self.admin_refused(*candidate_resolver_admin),
    {
        if self.admin != *candidate_resolver_admin {
            return Err(ResolverError::ResolverAdminInvalid);
        }
        Ok(())
    }

    /// The seeds of the address of the resolver with the given base.
    pub open spec fn seeds_spec(base: Pubkey) -> Seq<Seq<u8>> {
        seq!["resolver".spec_bytes(), base@]
    }

    pub fn seeds(base: &Pubkey) -> (seeds: Vec<Vec<u8>>)
        ensures
            seeds_view(seeds@) == Self::seeds_spec(*base),
    {
        let mut seeds: Vec<Vec<u8>> = Vec::new();
        seeds.push(tag_seed("resolver"));
        seeds.push(base.to_vec());
        assert(seeds_view(seeds@) =~= Self::seeds_spec(*base));
        seeds
    }

    /// The address of that resolver and its bump seed, where there is one.
    pub open spec fn address_spec(program_id: Pubkey, base: Pubkey) -> Option<(Seq<u8>, u8)> {
        program_address(Self::seeds_spec(base), program_id@)
    }

    /// Derives the address of the resolver, and hands back the seeds too.
    pub fn find_program_address(program_id: &Pubkey, base: &Pubkey) -> (found: Option<
        (Pubkey, u8, Vec<Vec<u8>>),
    >)
        ensures
            match found {
                Some((key, bump, seeds)) => {
                    &&& Self::address_spec(*program_id, *base) == Some((key@, bump))
                    &&& seeds_view(seeds@) == Self::seeds_spec(*base)
                },
                None => Self::address_spec(*program_id, *base) is None,
            },
    {
        let seeds = Self::seeds(base);
        match try_find_program_address(&seeds, program_id) {
            Some((key, bump)) => Some((key, bump, seeds)),
            None => None,
        }
    }

    /// Whether an account holds a resolver: the program owns it, it holds
    /// a resolver, it can be written where that is expected, and it lies
    /// at the address derived for the base that the resolver records.
    pub open spec fn loads(program_id: Pubkey, account: AccountInfo, expect_writable: bool) -> bool {
        &&& account.owner == program_id
        &&& account.data matches AccountData::Resolver(resolver)
        &&& expect_writable ==> account.is_writable
        &&& Self::address_spec(program_id, resolver.base) matches Some((key, _))
        &&& key == account.key@
    }

    /// Why loading the account fails, if it does.
    pub open spec fn load_spec(program_id: Pubkey, account: AccountInfo, expect_writable: bool) -> Option<ProgramError> {
        if Self::loads(program_id, account, expect_writable) {
            None
        } else {
            Some(account.refusal(program_id))
        }
    }

    /// Refuses an account that does not hold a resolver.
    pub fn load(program_id: &Pubkey, account: &AccountInfo, expect_writable: bool) -> (res: Result<
        (),
        ProgramError,
    >)
        ensures
            failure(res) == Self::load_spec(*program_id, *account, expect_writable),
    {
        match account.data {
            AccountData::Resolver(resolver) => {
                account.check_record(program_id, true, expect_writable)?;
                account.check_address(Self::find_program_address(program_id, &resolver.base))
            },
            _ => {
                account.check_record(program_id, false, expect_writable)?;
                Err(ProgramError::InvalidAccountData)
            },
        }
    }
}

} // verus!
