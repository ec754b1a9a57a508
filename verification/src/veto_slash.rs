//! Vetoing a slash proposal: the admin of the resolver assigned to it
//! cancels it, while the veto window is open.

use vstd::prelude::*;
use crate::account_info::{
    load_signer,
    load_system_program,
    signer_refused,
    system_program_refused,
    AccountData,
    AccountInfo,
};
use crate::config::Config;
use crate::error::{failure, guard, lift, lifted, lifted_failure, ProgramError};
use crate::ncn_slash_proposal_ticket::NcnSlashProposalTicket;
use crate::pubkey::Pubkey;
use crate::resolver::Resolver;
use crate::slash_proposal::SlashProposal;
use crate::slasher::Slasher;

verus! {

/// The number of accounts of a veto.
pub const VETO_SLASH_ACCOUNTS: usize = 9;

/// What a veto in the given slot comes to: the slash proposal as it is to
/// be written, or the first check that fails.
///
/// The accounts are, in this order: the configuration, the NCN, the
/// operator, the slasher, the resolver, the slash proposal, its ticket, the
/// resolver's admin and the system program. `registry` is what the registry
/// said of the NCN and the operator.
///
/// The signer must be the admin of the resolver, the proposal must be
/// open, the veto window must be open, and the ticket must be that of the
/// proposal and name the resolver. A completed proposal is refused as
/// completed in every slot. No token moves.
pub open spec fn veto_slash_spec(
    program_id: Pubkey,
    accounts: Seq<AccountInfo>,
    registry: Result<(), ProgramError>,
    current_slot: u64,
) -> Result<SlashProposal, ProgramError> {
    if accounts.len() != VETO_SLASH_ACCOUNTS {
        Err(ProgramError::NotEnoughAccountKeys)
    } else {
        let ncn = accounts[1];
        let operator = accounts[2];
        let resolver = accounts[4].data->Resolver_0;
        let proposal = accounts[5].data->SlashProposal_0;
        let ticket = accounts[6].data->NcnSlashProposalTicket_0;
        let resolver_admin = accounts[7];
        let vetoed = proposal.vetoed(current_slot);
        guard(Config::load_spec(program_id, accounts[0], false),
        guard(failure(registry),
        guard(Slasher::load_spec(program_id, accounts[3], false),
        guard(Resolver::load_spec(program_id, accounts[4], false),
        guard(SlashProposal::load_spec(
                program_id, accounts[5], ncn.key, operator.key, accounts[3].key, false),
        guard(NcnSlashProposalTicket::load_spec(
                program_id, accounts[6], ncn.key, accounts[5].key, false),
        guard(signer_refused(resolver_admin, true),
        guard(system_program_refused(accounts[8]),
        guard(lifted_failure(resolver.admin_refused(resolver_admin.key)),
        guard(lifted_failure(failure(vetoed)),
        guard(lifted_failure(ticket.resolver_refused(accounts[4].key)),
        guard(lifted_failure(ticket.slash_proposal_refused(accounts[5].key)),
            lifted(vetoed)
        ))))))))))))
    }
}

/// Whether a veto is in order but for the state of the proposal and the
/// slot: the accounts are what they should be, the signer is the admin of
/// the resolver, and the ticket is that of the proposal and names the
/// resolver.
pub open spec fn veto_slash_in_order(
    program_id: Pubkey,
    accounts: Seq<AccountInfo>,
    registry: Result<(), ProgramError>,
) -> bool {
    let ncn = accounts[1];
    let operator = accounts[2];
    let resolver = accounts[4].data->Resolver_0;
    let ticket = accounts[6].data->NcnSlashProposalTicket_0;
    let resolver_admin = accounts[7];
    &&& accounts.len() == VETO_SLASH_ACCOUNTS
    &&& Config::load_spec(program_id, accounts[0], false) is None
    &&& registry is Ok
    &&& Slasher::load_spec(program_id, accounts[3], false) is None
    &&& Resolver::load_spec(program_id, accounts[4], false) is None
    &&& SlashProposal::load_spec(
        program_id,
        accounts[5],
        ncn.key,
        operator.key,
        accounts[3].key,
        false,
    ) is None
    &&& NcnSlashProposalTicket::load_spec(
        program_id,
        accounts[6],
        ncn.key,
        accounts[5].key,
        false,
    ) is None
    &&& signer_refused(resolver_admin, true) is None
    &&& system_program_refused(accounts[8]) is None
    &&& resolver.admin == resolver_admin.key
    &&& ticket.resolver == accounts[4].key
    &&& ticket.slash_proposal == accounts[5].key
}

/// Where a veto is in order, it comes to what the veto makes of the
/// proposal.
pub proof fn lemma_veto_slash_in_order(
    program_id: Pubkey,
    accounts: Seq<AccountInfo>,
    registry: Result<(), ProgramError>,
    current_slot: u64,
)
    requires
        veto_slash_in_order(program_id, accounts, registry),
    ensures
        veto_slash_spec(program_id, accounts, registry, current_slot) == lifted(
            accounts[5].data->SlashProposal_0.vetoed(current_slot),
        ),
{
}

/// Decides a veto. What it returns on success is to be written to the
/// account of the slash proposal; on failure nothing is to be written.
pub fn process_veto_slash(
    program_id: &Pubkey,
    accounts: &[AccountInfo],
    registry: Result<(), ProgramError>,
    current_slot: u64,
) -> (res: Result<SlashProposal, ProgramError>)
    ensures
        res == veto_slash_spec(*program_id, accounts@, registry, current_slot),
{
    if accounts.len() != VETO_SLASH_ACCOUNTS {
        return Err(ProgramError::NotEnoughAccountKeys);
    }
    let ncn = &accounts[1];
    let operator = &accounts[2];
    let resolver_admin = &accounts[7];

    Config::load(program_id, &accounts[0], false)?;
    registry?;
    Slasher::load(program_id, &accounts[3], false)?;

    Resolver::load(program_id, &accounts[4], false)?;
    let resolver = match accounts[4].data {
        AccountData::Resolver(resolver) => resolver,
        _ => {
            return Err(ProgramError::InvalidAccountData);
        },
    };

    SlashProposal::load(program_id, &accounts[5], ncn, operator, &accounts[3], false)?;
    let mut proposal = match accounts[5].data {
        AccountData::SlashProposal(proposal) => proposal,
        _ => {
            return Err(ProgramError::InvalidAccountData);
        },
    };

    NcnSlashProposalTicket::load(program_id, &accounts[6], ncn, &accounts[5], false)?;
    let ticket = match accounts[6].data {
        AccountData::NcnSlashProposalTicket(ticket) => ticket,
        _ => {
            return Err(ProgramError::InvalidAccountData);
        },
    };

    load_signer(resolver_admin, true)?;
    load_system_program(&accounts[8])?;

    lift(resolver.check_admin(&resolver_admin.key))?;
    lift(proposal.veto(current_slot))?;
    lift(ticket.check_resolver(&accounts[4].key))?;
    lift(ticket.check_slash_proposal(&accounts[5].key))?;

    Ok(proposal)
}

} // verus!
