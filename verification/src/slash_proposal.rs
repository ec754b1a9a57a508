//! The slash proposal: the record of one case, and the guards of its
//! transitions.

use vstd::prelude::*;
use vstd::string::StringSliceAdditionalSpecFns;
use crate::account_info::{AccountData, AccountInfo};
use crate::error::{failure, ProgramError, ResolverError};
use crate::pubkey::{program_address, seeds_view, tag_seed, try_find_program_address, Pubkey};

verus! {

/// One case: the proposal of a slasher to slash an operator.
///
/// It is open from its creation until it is completed, by a veto or by its
/// execution, whichever comes first. No operation of this library takes the
/// flag back, nor changes the amount.
#[derive(Clone, Copy, Debug, PartialEq, Eq)]
pub struct SlashProposal {
    /// The operator to be slashed.
    pub operator: Pubkey,
    /// The slasher that proposed it.
    pub slasher: Pubkey,
    /// The amount to slash, in the smallest unit of the token.
    pub amount: u64,
    /// The slot in which it was proposed.
    pub capture_slot: u64,
    /// The first slot in which a veto comes too late and it can be executed.
    pub veto_deadline_slot: u64,
    /// The first slot in which it can be deleted, once completed.
    pub delete_deadline_slot: u64,
    /// Whether it was vetoed or executed.
    pub completed: bool,
    /// The bump seed of its address.
    pub bump: u8,
}

impl SlashProposal {
    /// The proposal as it is opened: not completed, and deletable, once it
    /// is completed, from the veto deadline on.
    pub open spec fn opened(
        operator: Pubkey,
        slasher: Pubkey,
        amount: u64,
        capture_slot: u64,
        veto_deadline_slot: u64,
        bump: u8,
    ) -> SlashProposal {
        SlashProposal {
            operator,
            slasher,
            amount,
            capture_slot,
            veto_deadline_slot,
            delete_deadline_slot: veto_deadline_slot,
            completed: false,
            bump,
        }
    }

    /// Opens a proposal.
    pub fn new(
        operator: Pubkey,
        slasher: Pubkey,
        amount: u64,
        capture_slot: u64,
        veto_deadline_slot: u64,
        bump: u8,
    ) -> (proposal: Self)
        ensures
            proposal == Self::opened(
                operator,
                slasher,
                amount,
                capture_slot,
                veto_deadline_slot,
                bump,
            ),
    {
        SlashProposal {
            operator,
            slasher,
            amount,
            capture_slot,
            veto_deadline_slot,
            delete_deadline_slot: veto_deadline_slot,
            completed: false,
            bump,
        }
    }

    pub fn amount(&self) -> (amount: u64)
        ensures
            amount == self.amount,
    {
        self.amount
    }

    pub fn veto_deadline_slot(&self) -> (slot: u64)
        ensures
            slot == self.veto_deadline_slot,
    {
        self.veto_deadline_slot
    }

    pub fn delete_deadline_slot(&self) -> (slot: u64)
        ensures
            slot == self.delete_deadline_slot,
    {
        self.delete_deadline_slot
    }

    pub fn completed(&self) -> (completed: bool)
        ensures
            completed == self.completed,
    {
        self.completed
    }

    /// Sets the flag. Only the flag changes. A completed proposal stays
    /// completed: the flag is never taken back.
    pub fn set_completed(&mut self, completed: bool)
        requires
            old(self).completed ==> completed,
        ensures
            *final(self) == (SlashProposal { completed, ..*old(self) }),
    {
        self.completed = completed;
    }

    /// Whether a veto in the given slot comes in time.
    pub open spec fn veto_period_open(&self, current_slot: u64) -> bool {
        current_slot < self.veto_deadline_slot
    }

    /// Refuses a veto that comes at or after the veto deadline.
    pub fn check_veto_period_ended(&self, current_slot: u64) -> (res: Result<(), ResolverError>)
        ensures
            res is Ok <==> self.veto_period_open(current_slot),
            res is Err ==> res == Err::<(), _>(ResolverError::SlashProposalVetoPeriodEnded),
    {
        if self.veto_deadline_slot <= current_slot {
            return Err(ResolverError::SlashProposalVetoPeriodEnded);
        }
        Ok(())
    }

    /// Refuses an execution that comes before the veto deadline.
    pub fn check_veto_period_not_ended(&self, current_slot: u64) -> (res: Result<
        (),
        ResolverError,
    >)
        ensures
            res is Ok <==> !self.veto_period_open(current_slot),
            res is Err ==> res == Err::<(), _>(ResolverError::SlashProposalVetoPeriodNotEnded),
    {
        if self.veto_deadline_slot > current_slot {
            return Err(ResolverError::SlashProposalVetoPeriodNotEnded);
        }
        Ok(())
    }

    /// Refuses a proposal that is completed.
    pub fn check_completed(&self) -> (res: Result<(), ResolverError>)
        ensures
            res is Ok <==> !self.completed,
            res is Err ==> res == Err::<(), _>(ResolverError::SlashProposalCompleted),
    {
        if self.completed {
            return Err(ResolverError::SlashProposalCompleted);
        }
        Ok(())
    }

    /// Refuses a deletion that comes before the delete deadline.
    pub fn check_delete_deadline_ended(&self, current_slot: u64) -> (res: Result<
        (),
        ResolverError,
    >)
        ensures
            res is Ok <==> current_slot >= self.delete_deadline_slot,
            res is Err ==> res == Err::<(), _>(
                ResolverError::SlashProposalDeleteDeadlineNotEnded,
            ),
    {
        if current_slot < self.delete_deadline_slot {
            return Err(ResolverError::SlashProposalDeleteDeadlineNotEnded);
        }
        Ok(())
    }

    /// Refuses the deletion of a proposal that is still open.
    pub fn check_not_open(&self) -> (res: Result<(), ResolverError>)
        ensures
            res is Ok <==> self.completed,
            res is Err ==> res == Err::<(), _>(ResolverError::SlashProposalNotCompleted),
    {
        if !self.completed {
            return Err(ResolverError::SlashProposalNotCompleted);
        }
        Ok(())
    }

    /// What a veto in the given slot makes of the proposal: a completed
    /// proposal refuses it in every slot; an open one refuses it from the
    /// veto deadline on, and before that is completed by it, with nothing
    /// else changed.
    pub open spec fn vetoed(self, current_slot: u64) -> Result<SlashProposal, ResolverError> {
        if self.completed {
            Err(ResolverError::SlashProposalCompleted)
        } else if !self.veto_period_open(current_slot) {
            Err(ResolverError::SlashProposalVetoPeriodEnded)
        } else {
            Ok(SlashProposal { completed: true, ..self })
        }
    }

    /// What an execution in the given slot makes of the proposal: a
    /// completed proposal refuses it in every slot; an open one refuses it
    /// before the veto deadline, and from the deadline on is completed by
    /// it, with its delete deadline moved on by the grace period.
    pub open spec fn executed(self, current_slot: u64, grace: u64) -> Result<
        SlashProposal,
        ResolverError,
    > {
        if self.completed {
            Err(ResolverError::SlashProposalCompleted)
        } else if self.veto_period_open(current_slot) {
            Err(ResolverError::SlashProposalVetoPeriodNotEnded)
        } else if self.delete_deadline_slot + grace > u64::MAX {
            Err(ResolverError::ArithmeticOverflow)
        } else {
            Ok(
                SlashProposal {
                    completed: true,
                    delete_deadline_slot: (self.delete_deadline_slot + grace) as u64,
                    ..self
                },
            )
        }
    }

    /// Why the proposal cannot be deleted in the given slot, if it cannot:
    /// the slot lies before the delete deadline, or else the proposal is
    /// still open.
    pub open spec fn deletion_refused(self, current_slot: u64) -> Option<ResolverError> {
        if current_slot < self.delete_deadline_slot {
            Some(ResolverError::SlashProposalDeleteDeadlineNotEnded)
        } else if !self.completed {
            Some(ResolverError::SlashProposalNotCompleted)
        } else {
            None
        }
    }

    /// Vetoes the proposal. On failure the proposal is as it was.
    pub fn veto(&mut self, current_slot: u64) -> (res: Result<(), ResolverError>)
        ensures
            match old(self).vetoed(current_slot) {
                Ok(after) => res is Ok && *final(self) == after,
                Err(e) => res == Err::<(), _>(e) && *final(self) == *old(self),
            },
    {
        self.check_completed()?;
        self.check_veto_period_ended(current_slot)?;
        self.set_completed(true);
        Ok(())
    }

    /// Executes the proposal, as far as the record goes. On failure the
    /// proposal is as it was.
    pub fn execute(&mut self, current_slot: u64, grace: u64) -> (res: Result<(), ResolverError>)
        ensures
            match old(self).executed(current_slot, grace) {
                Ok(after) => res is Ok && *final(self) == after,
                Err(e) => res == Err::<(), _>(e) && *final(self) == *old(self),
            },
    {
        self.check_completed()?;
        self.check_veto_period_not_ended(current_slot)?;
        let deadline = match self.delete_deadline_slot.checked_add(grace) {
            Some(slot) => slot,
            None => {
                return Err(ResolverError::ArithmeticOverflow);
            },
        };
        self.delete_deadline_slot = deadline;
        self.set_completed(true);
        Ok(())
    }

    /// Tells whether the proposal can be deleted in the given slot.
    pub fn check_deletable(&self, current_slot: u64) -> (res: Result<(), ResolverError>)
        ensures
            failure(res) == self.deletion_refused(current_slot),
    {
        self.check_delete_deadline_ended(current_slot)?;
        self.check_not_open()?;
        Ok(())
    }

    /// The seeds of the address of the proposal of a slasher against an
    /// operator of an NCN.
    pub open spec fn seeds_spec(ncn: Pubkey, operator: Pubkey, slasher: Pubkey) -> Seq<Seq<u8>> {
        seq!["slash_proposal".spec_bytes(), ncn@, operator@, slasher@]
    }

    pub fn seeds(ncn: &Pubkey, operator: &Pubkey, slasher: &Pubkey) -> (seeds: Vec<Vec<u8>>)
        ensures
            seeds_view(seeds@) == Self::seeds_spec(*ncn, *operator, *slasher),
    {
        let mut seeds: Vec<Vec<u8>> = Vec::new();
        seeds.push(tag_seed("slash_proposal"));
        seeds.push(ncn.to_vec());
        seeds.push(operator.to_vec());
        seeds.push(slasher.to_vec());
        assert(seeds_view(seeds@) =~= Self::seeds_spec(*ncn, *operator, *slasher));
        seeds
    }

    /// The address of that proposal and its bump seed, where there is one.
    pub open spec fn address_spec(
        program_id: Pubkey,
        ncn: Pubkey,
        operator: Pubkey,
        slasher: Pubkey,
    ) -> Option<(Seq<u8>, u8)> {
        program_address(Self::seeds_spec(ncn, operator, slasher), program_id@)
    }

    /// Derives the address of the proposal, and hands back the seeds too.
    pub fn find_program_address(
        program_id: &Pubkey,
        ncn: &Pubkey,
        operator: &Pubkey,
        slasher: &Pubkey,
    ) -> (found: Option<(Pubkey, u8, Vec<Vec<u8>>)>)
        ensures
            match found {
                Some((key, bump, seeds)) => {
                    &&& Self::address_spec(*program_id, *ncn, *operator, *slasher) == Some(
                        (key@, bump),
                    )
                    &&& seeds_view(seeds@) == Self::seeds_spec(*ncn, *operator, *slasher)
                },
                None => Self::address_spec(*program_id, *ncn, *operator, *slasher) is None,
            },
    {
        let seeds = Self::seeds(ncn, operator, slasher);
        match try_find_program_address(&seeds, program_id) {
            Some((key, bump)) => Some((key, bump, seeds)),
            None => None,
        }
    }

    /// Whether an account holds the proposal of the slasher against the
    /// operator of the NCN: the program owns it, it holds a slash proposal,
    /// it can be written where that is expected, and it lies at the
    /// address derived for the three.
    pub open spec fn loads(
        program_id: Pubkey,
        slash_proposal: AccountInfo,
        ncn: Pubkey,
        operator: Pubkey,
        slasher: Pubkey,
        expect_writable: bool,
    ) -> bool {
        &&& slash_proposal.owner == program_id
        &&& slash_proposal.data is SlashProposal
        &&& expect_writable ==> slash_proposal.is_writable
        &&& Self::address_spec(program_id, ncn, operator, slasher) matches Some((key, _))
        &&& key == slash_proposal.key@
    }

    /// Why loading the account fails, if it does.
    pub open spec fn load_spec(
        program_id: Pubkey,
        slash_proposal: AccountInfo,
        ncn: Pubkey,
        operator: Pubkey,
        slasher: Pubkey,
        expect_writable: bool,
    ) -> Option<ProgramError> {
        if Self::loads(program_id, slash_proposal, ncn, operator, slasher, expect_writable) {
            None
        } else {
            Some(slash_proposal.refusal(program_id))
        }
    }

    /// Refuses an account that does not hold that proposal.
    pub fn load(
        program_id: &Pubkey,
        slash_proposal: &AccountInfo,
        ncn: &AccountInfo,
        operator: &AccountInfo,
        slasher: &AccountInfo,
        expect_writable: bool,
    ) -> (res: Result<(), ProgramError>)
        ensures
            failure(res) == Self::load_spec(
                *program_id,
                *slash_proposal,
                ncn.key,
                operator.key,
                slasher.key,
                expect_writable,
            ),
    {
        let holds = match slash_proposal.data {
            AccountData::SlashProposal(_) => true,
            _ => false,
        };
        slash_proposal.check_record(program_id, holds, expect_writable)?;
        let found = Self::find_program_address(program_id, &ncn.key, &operator.key, &slasher.key);
        slash_proposal.check_address(found)
    }
}

} // verus!
