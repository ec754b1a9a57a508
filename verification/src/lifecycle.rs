//! What holds of the life of a slash proposal, whatever the accounts, the
//! slots and the answers of registry and vault.
//!
//! A proposal is open, then vetoed or executed, then deleted. A veto is
//! possible only before the veto deadline and an execution only from it on,
//! so that the two never meet.

use vstd::prelude::*;
use crate::account_info::{AccountData, AccountInfo};
use crate::delete_slash_proposal::{
    delete_slash_proposal_in_order,
    delete_slash_proposal_spec,
    Deletion,
};
use crate::error::{custom, ProgramError, ResolverError};
use crate::execute_slash::{
    execute_slash_in_order,
    execute_slash_spec,
    ExecuteSlashChecks,
    SlashOrder,
    SlashOrderView,
};
use crate::initialize_resolver::{initialize_resolver_spec, InitializedResolverView};
use crate::initialize_slasher::{initialize_slasher_spec, InitializedSlasherView};
use crate::ncn_resolver_program_config::NcnResolverProgramConfig;
use crate::ncn_slash_proposal_ticket::NcnSlashProposalTicket;
use crate::propose_slash::propose_slash_spec;
use crate::pubkey::Pubkey;
use crate::set_resolver::set_resolver_spec;
use crate::slash_proposal::SlashProposal;
use crate::veto_slash::{veto_slash_in_order, veto_slash_spec};

verus! {

/// A proposal made in slot `t` under a policy with veto duration `v` is
/// open, was captured in `t`, carries the amount asked for, and has the
/// veto deadline `t + v`. Its ticket names no resolver yet.
pub proof fn lemma_proposal_starts_open(
    program_id: Pubkey,
    accounts: Seq<AccountInfo>,
    slash_amount: u64,
    registry: Result<(), ProgramError>,
    current_slot: u64,
)
    ensures
        propose_slash_spec(program_id, accounts, slash_amount, registry, current_slot) matches Ok(
            proposed,
        ) ==> {
            let policy = accounts[1].data->NcnResolverProgramConfig_0;
            &&& proposed.slash_proposal.veto_deadline_slot == current_slot
                + policy.veto_duration
            &&& proposed.slash_proposal.capture_slot == current_slot
            &&& proposed.slash_proposal.amount == slash_amount
            &&& !proposed.slash_proposal.completed
            &&& proposed.slash_proposal.operator == accounts[3].key
            &&& proposed.slash_proposal.slasher == accounts[4].key
            &&& proposed.ncn_slash_proposal_ticket.ncn == accounts[2].key
            &&& proposed.ncn_slash_proposal_ticket.slash_proposal == accounts[5].key
            &&& proposed.ncn_slash_proposal_ticket.resolver == Pubkey::null()
        },
{
}

/// While a proposal stands, a second one of the same slasher against the
/// same operator of the same NCN is refused: the account that it would
/// create is in use.
pub proof fn lemma_one_proposal_at_a_time(
    program_id: Pubkey,
    accounts: Seq<AccountInfo>,
    slash_amount: u64,
    registry: Result<(), ProgramError>,
    current_slot: u64,
)
    requires
        accounts.len() == 9,
        !(accounts[5].data is Empty),
    ensures
        propose_slash_spec(program_id, accounts, slash_amount, registry, current_slot) is Err,
{
}

/// The address of a proposal is determined by its NCN, its operator and
/// its slasher: two proposals for the same three go to the same account,
/// and so do their tickets.
pub proof fn lemma_proposal_address_is_determined(
    program_id: Pubkey,
    first: Seq<AccountInfo>,
    second: Seq<AccountInfo>,
    first_amount: u64,
    second_amount: u64,
    first_registry: Result<(), ProgramError>,
    second_registry: Result<(), ProgramError>,
    first_slot: u64,
    second_slot: u64,
)
    requires
        propose_slash_spec(program_id, first, first_amount, first_registry, first_slot) is Ok,
        propose_slash_spec(program_id, second, second_amount, second_registry, second_slot) is Ok,
        first[2].key == second[2].key,
        first[3].key == second[3].key,
        first[4].key == second[4].key,
    ensures
        first[5].key == second[5].key,
        first[6].key == second[6].key,
{
    Pubkey::lemma_view_injective(first[5].key, second[5].key);
    Pubkey::lemma_view_injective(first[6].key, second[6].key);
}

/// Who must have signed for an operation to succeed: for a proposal and
/// for an execution the admin of the slasher, for a veto the admin of the
/// resolver that the ticket names, for the assignment of a resolver the one
/// whom the policy names, and for a deletion whoever pays.
pub proof fn lemma_who_signs(
    program_id: Pubkey,
    accounts: Seq<AccountInfo>,
    slash_amount: u64,
    registry: Result<(), ProgramError>,
    checks: ExecuteSlashChecks,
    slot: u64,
)
    ensures
        propose_slash_spec(program_id, accounts, slash_amount, registry, slot) is Ok ==> {
            &&& accounts[7].is_signer
            &&& accounts[4].data->Slasher_0.admin == accounts[7].key
        },
        execute_slash_spec(program_id, accounts, checks, slot) is Ok ==> {
            &&& accounts[7].is_signer
            &&& accounts[5].data->Slasher_0.admin == accounts[7].key
        },
        veto_slash_spec(program_id, accounts, registry, slot) is Ok ==> {
            &&& accounts[7].is_signer
            &&& accounts[4].data->Resolver_0.admin == accounts[7].key
            &&& accounts[6].data->NcnSlashProposalTicket_0.resolver == accounts[4].key
            &&& accounts[6].data->NcnSlashProposalTicket_0.slash_proposal == accounts[5].key
        },
        set_resolver_spec(program_id, accounts, registry) is Ok ==> {
            &&& accounts[7].is_signer
            &&& accounts[1].data->NcnResolverProgramConfig_0.resolver_admin == accounts[7].key
        },
        delete_slash_proposal_spec(program_id, accounts, registry, slot) is Ok
            ==> accounts[6].is_signer,
{
}

/// A veto of a proposal made in slot `t` with veto duration `v` succeeds
/// in every slot before `t + v`, and fails in every slot from `t + v` on
/// because the veto period has ended.
pub proof fn lemma_veto_window(
    operator: Pubkey,
    slasher: Pubkey,
    amount: u64,
    t: u64,
    v: u64,
    bump: u8,
    probe: u64,
)
    requires
        t + v <= u64::MAX,
    ensures
        ({
            let proposal = SlashProposal::opened(operator, slasher, amount, t, (t + v) as u64, bump);
            &&& probe < t + v ==> proposal.vetoed(probe) == Ok::<_, ResolverError>(
                SlashProposal { completed: true, ..proposal },
            )
            &&& probe >= t + v ==> proposal.vetoed(probe) == Err::<SlashProposal, _>(
                ResolverError::SlashProposalVetoPeriodEnded,
            )
        }),
{
}

/// The same of the whole operation: where a veto is in order and the
/// proposal is open, with veto deadline `d`, it succeeds in every slot
/// before `d` and fails in every slot from `d` on.
pub proof fn lemma_veto_slash_window(
    program_id: Pubkey,
    accounts: Seq<AccountInfo>,
    registry: Result<(), ProgramError>,
    probe: u64,
)
    requires
        veto_slash_in_order(program_id, accounts, registry),
        !accounts[5].data->SlashProposal_0.completed,
    ensures
        ({
            let proposal = accounts[5].data->SlashProposal_0;
            let outcome = veto_slash_spec(program_id, accounts, registry, probe);
            &&& probe < proposal.veto_deadline_slot ==> outcome == Ok::<_, ProgramError>(
                SlashProposal { completed: true, ..proposal },
            )
            &&& probe >= proposal.veto_deadline_slot ==> outcome == Err::<SlashProposal, _>(
                custom(ResolverError::SlashProposalVetoPeriodEnded),
            )
        }),
{
}

/// A vetoed proposal is never executed, and never vetoed again: in every
/// slot either fails because the proposal is completed.
pub proof fn lemma_vetoed_is_never_executed(
    proposal: SlashProposal,
    veto_slot: u64,
    slot: u64,
    grace: u64,
)
    requires
        proposal.vetoed(veto_slot) is Ok,
    ensures
        ({
            let vetoed = proposal.vetoed(veto_slot)->Ok_0;
            &&& vetoed.executed(slot, grace) == Err::<SlashProposal, _>(
                ResolverError::SlashProposalCompleted,
            )
            &&& vetoed.vetoed(slot) == Err::<SlashProposal, _>(
                ResolverError::SlashProposalCompleted,
            )
        }),
{
}

/// An executed proposal is never vetoed, and never executed again: in
/// every slot either fails because the proposal is completed.
pub proof fn lemma_executed_is_never_vetoed(
    proposal: SlashProposal,
    execute_slot: u64,
    grace: u64,
    slot: u64,
)
    requires
        proposal.executed(execute_slot, grace) is Ok,
    ensures
        ({
            let executed = proposal.executed(execute_slot, grace)->Ok_0;
            &&& executed.vetoed(slot) == Err::<SlashProposal, _>(
                ResolverError::SlashProposalCompleted,
            )
            &&& executed.executed(slot, grace) == Err::<SlashProposal, _>(
                ResolverError::SlashProposalCompleted,
            )
        }),
{
}

/// Once a veto has been written, an execution that is in order in all
/// else fails in every slot, because the proposal is completed.
pub proof fn lemma_execute_after_veto(
    program_id: Pubkey,
    veto_accounts: Seq<AccountInfo>,
    registry: Result<(), ProgramError>,
    veto_slot: u64,
    execute_accounts: Seq<AccountInfo>,
    checks: ExecuteSlashChecks,
    slot: u64,
)
    requires
        veto_slash_spec(program_id, veto_accounts, registry, veto_slot) is Ok,
        execute_slash_in_order(program_id, execute_accounts, checks),
        execute_accounts[19].data == AccountData::SlashProposal(
            veto_slash_spec(program_id, veto_accounts, registry, veto_slot)->Ok_0,
        ),
    ensures
        execute_slash_spec(program_id, execute_accounts, checks, slot) == Err::<
            SlashOrderView,
            _,
        >(custom(ResolverError::SlashProposalCompleted)),
{
}

/// Once an execution has been settled and written, a veto that is in order
/// in all else fails in every slot, because the proposal is completed.
pub proof fn lemma_veto_after_execute(
    program_id: Pubkey,
    execute_accounts: Seq<AccountInfo>,
    checks: ExecuteSlashChecks,
    execute_slot: u64,
    veto_accounts: Seq<AccountInfo>,
    registry: Result<(), ProgramError>,
    slot: u64,
)
    requires
        execute_slash_spec(program_id, execute_accounts, checks, execute_slot) is Ok,
        veto_slash_in_order(program_id, veto_accounts, registry),
        veto_accounts[5].data == AccountData::SlashProposal(
            execute_slash_spec(program_id, execute_accounts, checks, execute_slot)->Ok_0.staged,
        ),
    ensures
        veto_slash_spec(program_id, veto_accounts, registry, slot) == Err::<SlashProposal, _>(
            custom(ResolverError::SlashProposalCompleted),
        ),
{
}

/// No slot admits both a veto and an execution of the same proposal, and
/// both need the proposal to be open.
pub proof fn lemma_veto_and_execution_exclude_each_other(
    proposal: SlashProposal,
    slot: u64,
    grace: u64,
)
    ensures
        !(proposal.vetoed(slot) is Ok && proposal.executed(slot, grace) is Ok),
        proposal.vetoed(slot) is Ok ==> !proposal.completed,
        proposal.executed(slot, grace) is Ok ==> !proposal.completed,
{
}

/// Neither operation succeeds on a completed proposal, whatever else is
/// handed to it.
pub proof fn lemma_completed_is_final(
    program_id: Pubkey,
    veto_accounts: Seq<AccountInfo>,
    registry: Result<(), ProgramError>,
    execute_accounts: Seq<AccountInfo>,
    checks: ExecuteSlashChecks,
    slot: u64,
)
    ensures
        veto_accounts.len() == 9 && veto_accounts[5].data->SlashProposal_0.completed
            ==> veto_slash_spec(program_id, veto_accounts, registry, slot) is Err,
        execute_accounts.len() == 23 && execute_accounts[19].data->SlashProposal_0.completed
            ==> execute_slash_spec(program_id, execute_accounts, checks, slot) is Err,
{
}

/// What a veto or an execution writes is the proposal that it found, but
/// completed: operator, slasher, amount, capture slot and veto deadline
/// are those that it had. A veto leaves the delete deadline too; an
/// execution moves it on by the grace period of the policy.
pub proof fn lemma_transitions_keep_the_proposal(
    program_id: Pubkey,
    veto_accounts: Seq<AccountInfo>,
    registry: Result<(), ProgramError>,
    execute_accounts: Seq<AccountInfo>,
    checks: ExecuteSlashChecks,
    slot: u64,
)
    ensures
        veto_slash_spec(program_id, veto_accounts, registry, slot) matches Ok(after) ==> {
            let before = veto_accounts[5].data->SlashProposal_0;
            &&& !before.completed
            &&& slot < before.veto_deadline_slot
            &&& after == SlashProposal { completed: true, ..before }
        },
        execute_slash_spec(program_id, execute_accounts, checks, slot) matches Ok(order) ==> {
            let before = execute_accounts[19].data->SlashProposal_0;
            let policy = execute_accounts[1].data->NcnResolverProgramConfig_0;
            &&& !before.completed
            &&& slot >= before.veto_deadline_slot
            &&& order.amount == before.amount
            &&& order.staged == SlashProposal {
                completed: true,
                delete_deadline_slot: (before.delete_deadline_slot
                    + policy.delete_slash_proposal_duration) as u64,
                ..before
            }
            &&& order.staged.delete_deadline_slot == before.delete_deadline_slot
                + policy.delete_slash_proposal_duration
        },
{
}

/// An execution that the vault refuses writes nothing: the failure of the
/// vault is the outcome, and the proposal stays as it was, open and with
/// its delete deadline where it stood.
pub proof fn lemma_failed_slash_leaves_no_trace(order: SlashOrder, failure: ProgramError)
    ensures
        order.settled(Err(failure)) == Err::<SlashProposal, _>(failure),
        forall|vault: Result<(), ProgramError>| #[trigger]
            order.settled(vault) is Ok ==> vault is Ok && order.settled(vault)->Ok_0
                == order.staged,
{
}

/// A deletion before the delete deadline fails, whether the proposal is
/// completed or not, and so does the deletion of an open proposal. Where a
/// deletion succeeds, it closes the proposal and its ticket, both.
pub proof fn lemma_delete_is_gated(
    program_id: Pubkey,
    accounts: Seq<AccountInfo>,
    registry: Result<(), ProgramError>,
    current_slot: u64,
)
    ensures
        ({
            let proposal = accounts[4].data->SlashProposal_0;
            let outcome = delete_slash_proposal_spec(program_id, accounts, registry, current_slot);
            &&& accounts.len() == 8 && current_slot < proposal.delete_deadline_slot
                ==> outcome is Err
            &&& accounts.len() == 8 && !proposal.completed ==> outcome is Err
            &&& outcome matches Ok(deletion) ==> {
                &&& proposal.completed
                &&& current_slot >= proposal.delete_deadline_slot
                &&& deletion.slash_proposal == accounts[4].key
                &&& deletion.ncn_slash_proposal_ticket == accounts[5].key
            }
        }),
{
}

/// Where a deletion is in order, it succeeds from the delete deadline on
/// if the proposal is completed, and fails before the deadline because the
/// deadline has not come.
pub proof fn lemma_delete_window(
    program_id: Pubkey,
    accounts: Seq<AccountInfo>,
    registry: Result<(), ProgramError>,
    current_slot: u64,
)
    requires
        delete_slash_proposal_in_order(program_id, accounts, registry),
    ensures
        ({
            let proposal = accounts[4].data->SlashProposal_0;
            let outcome = delete_slash_proposal_spec(program_id, accounts, registry, current_slot);
            &&& current_slot < proposal.delete_deadline_slot ==> outcome == Err::<Deletion, _>(
                custom(ResolverError::SlashProposalDeleteDeadlineNotEnded),
            )
            &&& current_slot >= proposal.delete_deadline_slot && proposal.completed ==> outcome
                is Ok
        }),
{
}

/// A vetoed proposal can be deleted from its veto deadline on; an executed
/// one only after the grace period on top of that.
pub proof fn lemma_delete_deadlines(
    operator: Pubkey,
    slasher: Pubkey,
    amount: u64,
    t: u64,
    deadline: u64,
    bump: u8,
    slot: u64,
    grace: u64,
    probe: u64,
)
    ensures
        ({
            let proposal = SlashProposal::opened(operator, slasher, amount, t, deadline, bump);
            &&& proposal.vetoed(slot) matches Ok(vetoed) ==> (vetoed.deletion_refused(probe)
                is None <==> probe >= deadline)
            &&& proposal.executed(slot, grace) matches Ok(executed) ==> (
            executed.deletion_refused(probe) is None <==> probe >= deadline + grace)
        }),
{
}

/// Assigning a resolver changes the resolver on the ticket and nothing
/// else; the proposal is not among what is written.
pub proof fn lemma_set_resolver_touches_the_ticket_only(
    program_id: Pubkey,
    accounts: Seq<AccountInfo>,
    registry: Result<(), ProgramError>,
)
    ensures
        set_resolver_spec(program_id, accounts, registry) matches Ok(ticket) ==> {
            let before = accounts[6].data->NcnSlashProposalTicket_0;
            &&& ticket == NcnSlashProposalTicket { resolver: accounts[8].key, ..before }
            &&& ticket.ncn == before.ncn
            &&& ticket.slash_proposal == before.slash_proposal
            &&& ticket.bump == before.bump
            &&& accounts[1].data->NcnResolverProgramConfig_0.resolver_admin == accounts[7].key
            &&& accounts[7].is_signer
        },
{
}

/// What one registration of a resolver comes to: the accounts that it is
/// handed, and what the registry said of the NCN.
#[verifier::opaque]
pub open spec fn registration(
    program_id: Pubkey,
    run: (Seq<AccountInfo>, Result<(), ProgramError>),
) -> Result<InitializedResolverView, ProgramError> {
    initialize_resolver_spec(program_id, run.0, run.1)
}

/// The policy that a registration finds.
pub open spec fn policy_found(
    run: (Seq<AccountInfo>, Result<(), ProgramError>),
) -> NcnResolverProgramConfig {
    run.0[1].data->NcnResolverProgramConfig_0
}

/// A registration that succeeds gives the resolver the count of the policy
/// that it finds as its index, and leaves a policy that counts one more
/// and is the same in all else.
pub proof fn lemma_registration_counts(
    program_id: Pubkey,
    run: (Seq<AccountInfo>, Result<(), ProgramError>),
)
    requires
        registration(program_id, run) is Ok,
    ensures
        ({
            let registered = registration(program_id, run)->Ok_0;
            &&& registered.resolver.index == policy_found(run).resolver_count
            &&& registered.ncn_resolver_program_config.resolver_count == policy_found(
                run,
            ).resolver_count + 1
            &&& registered.ncn_resolver_program_config == policy_found(run).incremented()
            &&& registered.resolver.admin == run.0[4].key
            &&& registered.resolver.base == run.0[5].key
        }),
{
    reveal(registration);
}

/// Whether the registrations follow one another under one policy: each
/// succeeds, the first finds the policy `start`, and each later one finds
/// the policy as the one before it left it.
pub open spec fn registrations_follow(
    program_id: Pubkey,
    runs: Seq<(Seq<AccountInfo>, Result<(), ProgramError>)>,
    start: NcnResolverProgramConfig,
) -> bool {
    forall|i: int|
        0 <= i < runs.len() ==> {
            &&& (#[trigger] registration(program_id, runs[i])) is Ok
            &&& policy_found(runs[i]) == (if i == 0 {
                start
            } else {
                registration(program_id, runs[i - 1])->Ok_0.ncn_resolver_program_config
            })
        }
}

/// Resolvers registered one after the other under one policy get the
/// indices that follow the count at which the policy stood, in the order
/// of their registration: under a new policy, 0, 1, 2 and so on.
pub proof fn lemma_resolver_indices_count_up(
    program_id: Pubkey,
    runs: Seq<(Seq<AccountInfo>, Result<(), ProgramError>)>,
    start: NcnResolverProgramConfig,
    i: int,
)
    requires
        registrations_follow(program_id, runs, start),
        0 <= i < runs.len(),
    ensures
        ({
            let registered = registration(program_id, runs[i])->Ok_0;
            &&& registered.resolver.index == start.resolver_count + i
            &&& registered.ncn_resolver_program_config.resolver_count == start.resolver_count
                + i + 1
            &&& start.resolver_count == 0 ==> registered.resolver.index == i
        }),
    decreases i,
{
    assert(registration(program_id, runs[i]) is Ok);
    lemma_registration_counts(program_id, runs[i]);
    if i > 0 {
        assert(registration(program_id, runs[i - 1]) is Ok);
        lemma_resolver_indices_count_up(program_id, runs, start, i - 1);
    }
}

/// What one registration of a slasher comes to: the accounts that it is
/// handed, and what the registry said of the NCN.
#[verifier::opaque]
pub open spec fn slasher_registration(
    program_id: Pubkey,
    run: (Seq<AccountInfo>, Result<(), ProgramError>),
) -> Result<InitializedSlasherView, ProgramError> {
    initialize_slasher_spec(program_id, run.0, run.1)
}

/// A registration of a slasher that succeeds gives the slasher the slasher
/// count of the policy that it finds as its index, and leaves a policy
/// that counts one slasher more and is the same in all else.
pub proof fn lemma_slasher_registration_counts(
    program_id: Pubkey,
    run: (Seq<AccountInfo>, Result<(), ProgramError>),
)
    requires
        slasher_registration(program_id, run) is Ok,
    ensures
        ({
            let registered = slasher_registration(program_id, run)->Ok_0;
            &&& registered.slasher.index == policy_found(run).slasher_count
            &&& registered.ncn_resolver_program_config.slasher_count == policy_found(
                run,
            ).slasher_count + 1
            &&& registered.ncn_resolver_program_config == policy_found(
                run,
            ).with_one_more_slasher()
            &&& registered.slasher.admin == run.0[4].key
            &&& registered.slasher.delegate_admin == run.0[4].key
            &&& registered.slasher.base == run.0[5].key
        }),
{
    reveal(slasher_registration);
}

/// Whether the registrations of slashers follow one another under one
/// policy: each succeeds, the first finds the policy `start`, and each
/// later one finds the policy as the one before it left it.
pub open spec fn slasher_registrations_follow(
    program_id: Pubkey,
    runs: Seq<(Seq<AccountInfo>, Result<(), ProgramError>)>,
    start: NcnResolverProgramConfig,
) -> bool {
    forall|i: int|
        0 <= i < runs.len() ==> {
            &&& (#[trigger] slasher_registration(program_id, runs[i])) is Ok
            &&& policy_found(runs[i]) == (if i == 0 {
                start
            } else {
                slasher_registration(program_id, runs[i - 1])->Ok_0.ncn_resolver_program_config
            })
        }
}

/// Slashers registered one after the other under one policy get the
/// indices that follow the count at which the policy stood, in the order
/// of their registration: under a new policy, 0, 1, 2 and so on.
pub proof fn lemma_slasher_indices_count_up(
    program_id: Pubkey,
    runs: Seq<(Seq<AccountInfo>, Result<(), ProgramError>)>,
    start: NcnResolverProgramConfig,
    i: int,
)
    requires
        slasher_registrations_follow(program_id, runs, start),
        0 <= i < runs.len(),
    ensures
        ({
            let registered = slasher_registration(program_id, runs[i])->Ok_0;
            &&& registered.slasher.index == start.slasher_count + i
            &&& registered.ncn_resolver_program_config.slasher_count == start.slasher_count + i
                + 1
            &&& start.slasher_count == 0 ==> registered.slasher.index == i
        }),
    decreases i,
{
    assert(slasher_registration(program_id, runs[i]) is Ok);
    lemma_slasher_registration_counts(program_id, runs[i]);
    if i > 0 {
        assert(slasher_registration(program_id, runs[i - 1]) is Ok);
        lemma_slasher_indices_count_up(program_id, runs, start, i - 1);
    }
}

/// The two counts of a policy do not touch each other: registering a
/// resolver leaves the slasher count, and registering a slasher leaves the
/// resolver count.
pub proof fn lemma_counts_are_apart(
    program_id: Pubkey,
    run: (Seq<AccountInfo>, Result<(), ProgramError>),
)
    ensures
        registration(program_id, run) matches Ok(registered)
            ==> registered.ncn_resolver_program_config.slasher_count == policy_found(
            run,
        ).slasher_count,
        slasher_registration(program_id, run) matches Ok(registered)
            ==> registered.ncn_resolver_program_config.resolver_count == policy_found(
            run,
        ).resolver_count,
{
    reveal(registration);
    reveal(slasher_registration);
}

} // verus!
