//! The slasher: who may propose a slash, and execute it once the veto
//! window has closed.

use vstd::prelude::*;
use vstd::string::StringSliceAdditionalSpecFns;
use crate::account_info::{AccountData, AccountInfo};
use crate::error::{failure, ProgramError, ResolverError};
use crate::pubkey::{
    program_address,
    seeds_view,
    tag_seed,
    try_find_program_address,
    with_bump,
    Pubkey,
};

verus! {

/// A registered slasher.
#[derive(Clone, Copy, Debug, PartialEq, Eq)]
pub struct Slasher {
    /// The key that its address is derived from.
    pub base: Pubkey,
    /// Who may propose and execute in its name, and change its admins.
    pub admin: Pubkey,
    /// Who may delegate the tokens that it holds.
    pub delegate_admin: Pubkey,
    /// How many slashers the NCN counted before it.
    pub index: u64,
    /// The bump seed of its address.
    pub bump: u8,
}

impl Slasher {
    /// The slasher as it is created: its admin is its delegate admin too.
    pub fn new(base: Pubkey, admin: Pubkey, index: u64, bump: u8) -> (slasher: Self)
        ensures
            slasher == (Slasher { base, admin, delegate_admin: admin, index, bump }),
    {
        Slasher { base, admin, delegate_admin: admin, index, bump }
    }

    pub fn index(&self) -> (index: u64)
        ensures
            index == self.index,
    {
        self.index
    }

    /// Why the given key is refused as the admin of the slasher.
    pub open spec fn admin_refused(&self, candidate: Pubkey) -> Option<ResolverError> {
        if self.admin == candidate {
            None
        } else {
            Some(ResolverError::SlasherAdminInvalid)
        }
    }

    /// Why the given key is refused as the delegate admin of the slasher.
    pub open spec fn delegate_admin_refused(&self, candidate: Pubkey) -> Option<ResolverError> {
        if self.delegate_admin == candidate {
            None
        } else {
            Some(ResolverError::SlasherDelegateAdminInvalid)
        }
    }

    /// Refuses a key that is not the admin of the slasher.
    pub fn check_admin(&self, candidate_slasher_admin: &Pubkey) -> (res: Result<
        (),
        ResolverError,
    >)
        ensures
            failure(res) == self.admin_refused(*candidate_slasher_admin),
    {
        if self.admin != *candidate_slasher_admin {
            return Err(ResolverError::SlasherAdminInvalid);
        }
        Ok(())
    }

    /// Refuses a key that is not the delegate admin of the slasher.
    pub fn check_delegate_admin(&self, delegate_admin: &Pubkey) -> (res: Result<
        (),
        ResolverError,
    >)
        ensures
            failure(res) == self.delegate_admin_refused(*delegate_admin),
    {
        if self.delegate_admin != *delegate_admin {
            return Err(ResolverError::SlasherDelegateAdminInvalid);
        }
        Ok(())
    }

    /// The slasher after its admin handed over to a new one: the new admin
    /// also takes the place of the old one as delegate admin, where the old
    /// one held it.
    pub open spec fn with_admin(self, new_admin: Pubkey) -> Slasher {
        Slasher {
            admin: new_admin,
            delegate_admin: if self.delegate_admin == self.admin {
                new_admin
            } else {
                self.delegate_admin
            },
            ..self
        }
    }

    /// Replaces the old admin by the new one as delegate admin, where the
    /// old one held that role.
    pub fn update_secondary_admin(&mut self, old_admin: &Pubkey, new_admin: &Pubkey)
        ensures
            *final(self) == (Slasher {
                delegate_admin: if old(self).delegate_admin == *old_admin {
                    *new_admin
                } else {
                    old(self).delegate_admin
                },
                ..*old(self)
            }),
    {
        if self.delegate_admin == *old_admin {
            self.delegate_admin = *new_admin;
        }
    }

    /// The seeds of the address of the slasher with the given base.
    pub open spec fn seeds_spec(base: Pubkey) -> Seq<Seq<u8>> {
        seq!["slasher".spec_bytes(), base@]
    }

    pub fn seeds(base: &Pubkey) -> (seeds: Vec<Vec<u8>>)
        ensures
            seeds_view(seeds@) == Self::seeds_spec(*base),
    {
        let mut seeds: Vec<Vec<u8>> = Vec::new();
        seeds.push(tag_seed("slasher"));
        seeds.push(base.to_vec());
        assert(seeds_view(seeds@) =~= Self::seeds_spec(*base));
        seeds
    }

    /// The seeds with which the program signs for the slasher: those of its
    /// address, and its bump seed.
    pub open spec fn signing_seeds_spec(self) -> Seq<Seq<u8>> {
        Self::seeds_spec(self.base).push(seq![self.bump])
    }

    pub fn signing_seeds(&self) -> (seeds: Vec<Vec<u8>>)
        ensures
            seeds_view(seeds@) == self.signing_seeds_spec(),
    {
        with_bump(Self::seeds(&self.base), self.bump)
    }

    /// The address of that slasher and its bump seed, where there is one.
    pub open spec fn address_spec(program_id: Pubkey, base: Pubkey) -> Option<(Seq<u8>, u8)> {
        program_address(Self::seeds_spec(base), program_id@)
    }

    /// Derives the address of the slasher, and hands back the seeds too.
    pub fn find_program_address(program_id: &Pubkey, base: &Pubkey) -> (found: Option<
        (Pubkey, u8, Vec<Vec<u8>>),
    >)
        ensures
            match found {
                Some((key, bump, seeds)) => {
                    &&& Self::address_spec(*program_id, *base) == Some((key@, bump))
                    &&& seeds_view(seeds@) == Self::seeds_spec(*base)
                },
                None => Self::address_spec(*program_id, *base) is None,
            },
    {
        let seeds = Self::seeds(base);
        match try_find_program_address(&seeds, program_id) {
            Some((key, bump)) => Some((key, bump, seeds)),
            None => None,
        }
    }

    /// Whether an account holds a slasher: the program owns it, it holds a
    /// slasher, it can be written where that is expected, and it lies at
    /// the address derived for the base that the slasher records.
    pub open spec fn loads(program_id: Pubkey, account: AccountInfo, expect_writable: bool) -> bool {
        &&& account.owner == program_id
        &&& account.data matches AccountData::Slasher(slasher)
        &&& expect_writable ==> account.is_writable
        &&& Self::address_spec(program_id, slasher.base) matches Some((key, _))
        &&& key == account.key@
    }

    /// Why loading the account fails, if it does.
    pub open spec fn load_spec(program_id: Pubkey, account: AccountInfo, expect_writable: bool) -> Option<ProgramError> {
        if Self::loads(program_id, account, expect_writable) {
            None
        } else {
            Some(account.refusal(program_id))
        }
    }

    /// Refuses an account that does not hold a slasher.
    pub fn load(program_id: &Pubkey, account: &AccountInfo, expect_writable: bool) -> (res: Result<
        (),
        ProgramError,
    >)
        ensures
            failure(res) == Self::load_spec(*program_id, *account, expect_writable),
    {
        match account.data {
            AccountData::Slasher(slasher) => {
                account.check_record(program_id, true, expect_writable)?;
                account.check_address(Self::find_program_address(program_id, &slasher.base))
            },
            _ => {
                account.check_record(program_id, false, expect_writable)?;
                Err(ProgramError::InvalidAccountData)
            },
        }
    }
}

} // verus!
