//! Proposing a slash: the admin of a slasher opens a slash proposal against
//! an operator of an NCN, and the veto window starts.

use vstd::prelude::*;
use crate::account_info::{
    address_refused,
    expect_address,
    load_signer,
    load_system_account,
    load_system_program,
    signer_refused,
    system_account_refused,
    system_program_refused,
    AccountData,
    AccountInfo,
};
use crate::config::Config;
use crate::error::{failure, guard, lift, lifted_failure, ProgramError, ResolverError};
use crate::ncn_resolver_program_config::NcnResolverProgramConfig;
use crate::ncn_slash_proposal_ticket::NcnSlashProposalTicket;
use crate::pubkey::{seeds_view, with_bump, Pubkey};
use crate::slash_proposal::SlashProposal;
use crate::slasher::Slasher;

verus! {

/// The two accounts that a proposal creates: what to write to each, and
/// the seeds that sign for its creation.
#[derive(Debug, PartialEq, Eq)]
pub struct ProposedSlash {
    /// The slash proposal.
    pub slash_proposal: SlashProposal,
    /// The seeds of the address of the slash proposal, and its bump seed.
    pub slash_proposal_seeds: Vec<Vec<u8>>,
    /// The ticket of the slash proposal.
    pub ncn_slash_proposal_ticket: NcnSlashProposalTicket,
    /// The seeds of the address of the ticket, and its bump seed.
    pub ncn_slash_proposal_ticket_seeds: Vec<Vec<u8>>,
}

/// A proposal with its seeds as sequences of bytes.
pub struct ProposedSlashView {
    pub slash_proposal: SlashProposal,
    pub slash_proposal_seeds: Seq<Seq<u8>>,
    pub ncn_slash_proposal_ticket: NcnSlashProposalTicket,
    pub ncn_slash_proposal_ticket_seeds: Seq<Seq<u8>>,
}

impl View for ProposedSlash {
    type V = ProposedSlashView;

    open spec fn view(&self) -> ProposedSlashView {
        ProposedSlashView {
            slash_proposal: self.slash_proposal,
            slash_proposal_seeds: seeds_view(self.slash_proposal_seeds@),
            ncn_slash_proposal_ticket: self.ncn_slash_proposal_ticket,
            ncn_slash_proposal_ticket_seeds: seeds_view(self.ncn_slash_proposal_ticket_seeds@),
        }
    }
}

/// The number of accounts of a proposal.
pub const PROPOSE_SLASH_ACCOUNTS: usize = 9;

/// The veto deadline of a proposal made in the given slot: the slot plus
/// the veto duration, where that fits in 64 bits.
pub open spec fn veto_deadline(current_slot: u64, veto_duration: u64) -> Result<
    u64,
    ResolverError,
> {
    if current_slot + veto_duration > u64::MAX {
        Err(ResolverError::ArithmeticOverflow)
    } else {
        Ok((current_slot + veto_duration) as u64)
    }
}

/// What a proposal of the given amount in the given slot comes to: the
/// two accounts to create, or the first check that fails.
///
/// The accounts are, in this order: the configuration, the policy of the
/// NCN, the NCN, the operator, the slasher, the slash proposal, its ticket,
/// the slasher's admin and the system program. `registry` is what the
/// registry said of the NCN and the operator.
///
/// The signer must be the admin of the slasher, and the accounts of the
/// proposal and of its ticket must be free and lie at the addresses derived
/// for them: a proposal of the same slasher against the same operator of
/// the same NCN that was not deleted stands in the way. The amount is taken
/// as it is, zero included.
pub open spec fn propose_slash_spec(
    program_id: Pubkey,
    accounts: Seq<AccountInfo>,
    slash_amount: u64,
    registry: Result<(), ProgramError>,
    current_slot: u64,
) -> Result<ProposedSlashView, ProgramError> {
    if accounts.len() != PROPOSE_SLASH_ACCOUNTS {
        Err(ProgramError::NotEnoughAccountKeys)
    } else {
        let policy = accounts[1].data->NcnResolverProgramConfig_0;
        let ncn = accounts[2];
        let operator = accounts[3];
        let slasher = accounts[4].data->Slasher_0;
        let slasher_admin = accounts[7];
        let proposal_address = SlashProposal::address_spec(
            program_id, ncn.key, operator.key, accounts[4].key);
        let ticket_address = NcnSlashProposalTicket::address_spec(
            program_id, ncn.key, accounts[5].key);
        let deadline = veto_deadline(current_slot, policy.veto_duration);
        guard(Config::load_spec(program_id, accounts[0], false),
        guard(NcnResolverProgramConfig::load_spec(program_id, accounts[1], ncn.key, false),
        guard(failure(registry),
        guard(Slasher::load_spec(program_id, accounts[4], false),
        guard(system_account_refused(accounts[5], true),
        guard(system_account_refused(accounts[6], true),
        guard(signer_refused(slasher_admin, true),
        guard(system_program_refused(accounts[8]),
        guard(lifted_failure(slasher.admin_refused(slasher_admin.key)),
        guard(address_refused(proposal_address, accounts[5]),
        guard(lifted_failure(failure(deadline)),
        guard(address_refused(ticket_address, accounts[6]),
            Ok(ProposedSlashView {
                slash_proposal: SlashProposal::opened(
                    operator.key,
                    accounts[4].key,
                    slash_amount,
                    current_slot,
                    deadline->Ok_0,
                    proposal_address->Some_0.1,
                ),
                slash_proposal_seeds: SlashProposal::seeds_spec(
                    ncn.key, operator.key, accounts[4].key,
                ).push(seq![proposal_address->Some_0.1]),
                ncn_slash_proposal_ticket: NcnSlashProposalTicket {
                    ncn: ncn.key,
                    slash_proposal: accounts[5].key,
                    resolver: Pubkey::null(),
                    bump: ticket_address->Some_0.1,
                },
                ncn_slash_proposal_ticket_seeds: NcnSlashProposalTicket::seeds_spec(
                    ncn.key, accounts[5].key,
                ).push(seq![ticket_address->Some_0.1]),
            })
        ))))))))))))
    }
}

/// Whether a proposal is in order in the given slot: the accounts are what
/// they should be, the registry has nothing to object, the signer is the
/// admin of the slasher, the accounts of the proposal and of its ticket are
/// free and lie at the addresses derived for them, and the veto deadline
/// fits in 64 bits.
pub open spec fn propose_slash_in_order(
    program_id: Pubkey,
    accounts: Seq<AccountInfo>,
    registry: Result<(), ProgramError>,
    current_slot: u64,
) -> bool {
    let policy = accounts[1].data->NcnResolverProgramConfig_0;
    let ncn = accounts[2];
    let operator = accounts[3];
    &&& accounts.len() == PROPOSE_SLASH_ACCOUNTS
    &&& Config::load_spec(program_id, accounts[0], false) is None
    &&& NcnResolverProgramConfig::load_spec(program_id, accounts[1], ncn.key, false) is None
    &&& registry is Ok
    &&& Slasher::load_spec(program_id, accounts[4], false) is None
    &&& system_account_refused(accounts[5], true) is None
    &&& system_account_refused(accounts[6], true) is None
    &&& signer_refused(accounts[7], true) is None
    &&& system_program_refused(accounts[8]) is None
    &&& accounts[4].data->Slasher_0.admin == accounts[7].key
    &&& SlashProposal::address_spec(program_id, ncn.key, operator.key, accounts[4].key) matches Some(
        (proposal_key, _),
    )
    &&& proposal_key == accounts[5].key@
    &&& current_slot + policy.veto_duration <= u64::MAX
    &&& NcnSlashProposalTicket::address_spec(program_id, ncn.key, accounts[5].key) matches Some(
        (ticket_key, _),
    )
    &&& ticket_key == accounts[6].key@
}

/// A proposal succeeds exactly where it is in order, and then opens the
/// proposal of the amount asked for, captured in the slot, with the veto
/// deadline the veto duration later, and a ticket that names no resolver.
pub proof fn lemma_propose_slash_in_order(
    program_id: Pubkey,
    accounts: Seq<AccountInfo>,
    slash_amount: u64,
    registry: Result<(), ProgramError>,
    current_slot: u64,
)
    ensures
        propose_slash_spec(program_id, accounts, slash_amount, registry, current_slot) is Ok
            <==> propose_slash_in_order(program_id, accounts, registry, current_slot),
        propose_slash_in_order(program_id, accounts, registry, current_slot) ==> ({
            let policy = accounts[1].data->NcnResolverProgramConfig_0;
            let ncn = accounts[2].key;
            let operator = accounts[3].key;
            let slasher = accounts[4].key;
            let proposal_bump = SlashProposal::address_spec(
                program_id,
                ncn,
                operator,
                slasher,
            )->Some_0.1;
            let ticket_bump = NcnSlashProposalTicket::address_spec(
                program_id,
                ncn,
                accounts[5].key,
            )->Some_0.1;
            propose_slash_spec(program_id, accounts, slash_amount, registry, current_slot)
                == Ok::<_, ProgramError>(
                ProposedSlashView {
                    slash_proposal: SlashProposal {
                        operator,
                        slasher,
                        amount: slash_amount,
                        capture_slot: current_slot,
                        veto_deadline_slot: (current_slot + policy.veto_duration) as u64,
                        delete_deadline_slot: (current_slot + policy.veto_duration) as u64,
                        completed: false,
                        bump: proposal_bump,
                    },
                    slash_proposal_seeds: SlashProposal::seeds_spec(ncn, operator, slasher).push(
                        seq![proposal_bump],
                    ),
                    ncn_slash_proposal_ticket: NcnSlashProposalTicket {
                        ncn,
                        slash_proposal: accounts[5].key,
                        resolver: Pubkey::null(),
                        bump: ticket_bump,
                    },
                    ncn_slash_proposal_ticket_seeds: NcnSlashProposalTicket::seeds_spec(
                        ncn,
                        accounts[5].key,
                    ).push(seq![ticket_bump]),
                },
            )
        }),
{
}

/// Computes the veto deadline of a proposal made in the given slot.
pub fn compute_veto_deadline(current_slot: u64, veto_duration: u64) -> (res: Result<
    u64,
    ResolverError,
>)
    ensures
        res == veto_deadline(current_slot, veto_duration),
{
    match current_slot.checked_add(veto_duration) {
        Some(slot) => Ok(slot),
        None => Err(ResolverError::ArithmeticOverflow),
    }
}

/// Decides a proposal. On success the two accounts are to be created and
/// written as returned; on failure nothing is to be created.
pub fn process_propose_slash(
    program_id: &Pubkey,
    accounts: &[AccountInfo],
    slash_amount: u64,
    registry: Result<(), ProgramError>,
    current_slot: u64,
) -> (res: Result<ProposedSlash, ProgramError>)
    ensures
        match propose_slash_spec(*program_id, accounts@, slash_amount, registry, current_slot) {
            Ok(proposed) => res matches Ok(p) && p@ == proposed,
            Err(e) => res == Err::<ProposedSlash, _>(e),
        },
{
    if accounts.len() != PROPOSE_SLASH_ACCOUNTS {
        return Err(ProgramError::NotEnoughAccountKeys);
    }
    let ncn = &accounts[2];
    let operator = &accounts[3];
    let slasher_admin = &accounts[7];

    Config::load(program_id, &accounts[0], false)?;
    NcnResolverProgramConfig::load(program_id, &accounts[1], ncn, false)?;
    let policy = match accounts[1].data {
        AccountData::NcnResolverProgramConfig(policy) => policy,
        _ => {
            return Err(ProgramError::InvalidAccountData);
        },
    };
    registry?;
    Slasher::load(program_id, &accounts[4], false)?;
    let slasher = match accounts[4].data {
        AccountData::Slasher(slasher) => slasher,
        _ => {
            return Err(ProgramError::InvalidAccountData);
        },
    };
    load_system_account(&accounts[5], true)?;
    load_system_account(&accounts[6], true)?;
    load_signer(slasher_admin, true)?;
    load_system_program(&accounts[8])?;

    lift(slasher.check_admin(&slasher_admin.key))?;

    let (proposal_bump, proposal_seeds) = expect_address(
        SlashProposal::find_program_address(program_id, &ncn.key, &operator.key, &accounts[4].key),
        &accounts[5],
    )?;
    let deadline = lift(compute_veto_deadline(current_slot, policy.veto_duration()))?;
    let slash_proposal = SlashProposal::new(
        operator.key,
        accounts[4].key,
        slash_amount,
        current_slot,
        deadline,
        proposal_bump,
    );

    let (ticket_bump, ticket_seeds) = expect_address(
        NcnSlashProposalTicket::find_program_address(program_id, &ncn.key, &accounts[5].key),
        &accounts[6],
    )?;
    let ncn_slash_proposal_ticket = NcnSlashProposalTicket::new(
        ncn.key,
        accounts[5].key,
        ticket_bump,
    );

    Ok(
        ProposedSlash {
            slash_proposal,
            slash_proposal_seeds: with_bump(proposal_seeds, proposal_bump),
            ncn_slash_proposal_ticket,
            ncn_slash_proposal_ticket_seeds: with_bump(ticket_seeds, ticket_bump),
        },
    )
}

} // verus!
