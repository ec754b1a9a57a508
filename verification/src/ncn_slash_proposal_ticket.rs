//! The ticket of a slash proposal: which resolver is assigned to it.

use vstd::prelude::*;
use vstd::string::StringSliceAdditionalSpecFns;
use crate::account_info::{AccountData, AccountInfo};
use crate::error::{failure, ProgramError, ResolverError};
use crate::pubkey::{program_address, seeds_view, tag_seed, try_find_program_address, Pubkey};

verus! {

/// The ticket that goes with one slash proposal of an NCN.
#[derive(Clone, Copy, Debug, PartialEq, Eq)]
pub struct NcnSlashProposalTicket {
    /// The NCN.
    pub ncn: Pubkey,
    /// The address of the slash proposal.
    pub slash_proposal: Pubkey,
    /// The address of the resolver assigned to it; the null address until
    /// one is assigned.
    pub resolver: Pubkey,
    /// The bump seed of its address.
    pub bump: u8,
}

impl NcnSlashProposalTicket {
    /// The ticket as it is created: no resolver assigned.
    pub fn new(ncn: Pubkey, slash_proposal: Pubkey, bump: u8) -> (ticket: Self)
        ensures
            ticket == (NcnSlashProposalTicket {
                ncn,
                slash_proposal,
                resolver: Pubkey::null(),
                bump,
            }),
    {
        NcnSlashProposalTicket { ncn, slash_proposal, resolver: Pubkey::default(), bump }
    }

    /// Assigns a resolver. Nothing else changes.
    pub fn set_resolver(&mut self, new_resolver: Pubkey)
        ensures
            *final(self) == (NcnSlashProposalTicket { resolver: new_resolver, ..*old(self) }),
    {
        self.resolver = new_resolver;
    }

    /// Why the given slash proposal is refused: the ticket belongs to
    /// another.
    pub open spec fn slash_proposal_refused(&self, slash_proposal: Pubkey) -> Option<
        ResolverError,
    > {
        if self.slash_proposal == slash_proposal {
            None
        } else {
            Some(ResolverError::SlashProposalInvalid)
        }
    }

    /// Why the given resolver is refused: it is not the one assigned.
    pub open spec fn resolver_refused(&self, resolver: Pubkey) -> Option<ResolverError> {
        if self.resolver == resolver {
            None
        } else {
            Some(ResolverError::SlashProposalResolverInvalid)
        }
    }

    /// Refuses a slash proposal that the ticket does not belong to.
    pub fn check_slash_proposal(&self, slash_proposal: &Pubkey) -> (res: Result<
        (),
        ResolverError,
    >)
        ensures
            failure(res) == self.slash_proposal_refused(*slash_proposal),
    {
        if self.slash_proposal != *slash_proposal {
            return Err(ResolverError::SlashProposalInvalid);
        }
        Ok(())
    }

    /// Refuses a resolver that is not the one assigned.
    pub fn check_resolver(&self, resolver: &Pubkey) -> (res: Result<(), ResolverError>)
        ensures
            failure(res) == self.resolver_refused(*resolver),
    {
        if self.resolver != *resolver {
            return Err(ResolverError::SlashProposalResolverInvalid);
        }
        Ok(())
    }

    /// The seeds of the address of the ticket of a slash proposal of an
    /// NCN.
    pub open spec fn seeds_spec(ncn: Pubkey, slash_proposal: Pubkey) -> Seq<Seq<u8>> {
        seq!["ncn_slash_proposal_ticket".spec_bytes(), ncn@, slash_proposal@]
    }

    pub fn seeds(ncn: &Pubkey, slash_proposal: &Pubkey) -> (seeds: Vec<Vec<u8>>)
        ensures
            seeds_view(seeds@) == Self::seeds_spec(*ncn, *slash_proposal),
    {
        let mut seeds: Vec<Vec<u8>> = Vec::new();
        seeds.push(tag_seed("ncn_slash_proposal_ticket"));
        seeds.push(ncn.to_vec());
        seeds.push(slash_proposal.to_vec());
        assert(seeds_view(seeds@) =~= Self::seeds_spec(*ncn, *slash_proposal));
        seeds
    }

    /// The address of that ticket and its bump seed, where there is one.
    pub open spec fn address_spec(
        program_id: Pubkey,
        ncn: Pubkey,
        slash_proposal: Pubkey,
    ) -> Option<(Seq<u8>, u8)> {
        program_address(Self::seeds_spec(ncn, slash_proposal), program_id@)
    }

    /// Derives the address of the ticket, and hands back the seeds too.
    pub fn find_program_address(
        program_id: &Pubkey,
        ncn: &Pubkey,
        slash_proposal: &Pubkey,
    ) -> (found: Option<(Pubkey, u8, Vec<Vec<u8>>)>)
        ensures
            match found {
                Some((key, bump, seeds)) => {
                    &&& Self::address_spec(*program_id, *ncn, *slash_proposal) == Some(
                        (key@, bump),
                    )
                    &&& seeds_view(seeds@) == Self::seeds_spec(*ncn, *slash_proposal)
                },
                None => Self::address_spec(*program_id, *ncn, *slash_proposal) is None,
            },
    {
        let seeds = Self::seeds(ncn, slash_proposal);
        match try_find_program_address(&seeds, program_id) {
            Some((key, bump)) => Some((key, bump, seeds)),
            None => None,
        }
    }

    /// Whether an account holds the ticket of the slash proposal of the
    /// NCN: the program owns it, it holds a ticket, it can be written where
    /// that is expected, and it lies at the address derived for the two.
    pub open spec fn loads(
        program_id: Pubkey,
        ncn_slash_proposal_ticket: AccountInfo,
        ncn: Pubkey,
        slash_proposal: Pubkey,
        expect_writable: bool,
    ) -> bool {
        &&& ncn_slash_proposal_ticket.owner == program_id
        &&& ncn_slash_proposal_ticket.data is NcnSlashProposalTicket
        &&& expect_writable ==> ncn_slash_proposal_ticket.is_writable
        &&& Self::address_spec(program_id, ncn, slash_proposal) matches Some((key, _))
        &&& key == ncn_slash_proposal_ticket.key@
    }

    /// Why loading the account fails, if it does.
    pub open spec fn load_spec(
        program_id: Pubkey,
        ncn_slash_proposal_ticket: AccountInfo,
        ncn: Pubkey,
        slash_proposal: Pubkey,
        expect_writable: bool,
    ) -> Option<ProgramError> {
        if Self::loads(program_id, ncn_slash_proposal_ticket, ncn, slash_proposal, expect_writable) {
            None
        } else {
            Some(ncn_slash_proposal_ticket.refusal(program_id))
        }
    }

    /// Refuses an account that does not hold that ticket.
    pub fn load(
        program_id: &Pubkey,
        ncn_slash_proposal_ticket: &AccountInfo,
        ncn: &AccountInfo,
        slash_proposal: &AccountInfo,
        expect_writable: bool,
    ) -> (res: Result<(), ProgramError>)
        ensures
            failure(res) == Self::load_spec(
                *program_id,
                *ncn_slash_proposal_ticket,
                ncn.key,
                slash_proposal.key,
                expect_writable,
            ),
    {
        let holds = match ncn_slash_proposal_ticket.data {
            AccountData::NcnSlashProposalTicket(_) => true,
            _ => false,
        };
        ncn_slash_proposal_ticket.check_record(program_id, holds, expect_writable)?;
        ncn_slash_proposal_ticket.check_address(
            Self::find_program_address(program_id, &ncn.key, &slash_proposal.key),
        )
    }
}

} // verus!
