//! Deleting a slash proposal: anyone who pays the fee removes a completed
//! proposal and its ticket, once the delete deadline has come.

use vstd::prelude::*;
use crate::account_info::{
    load_signer,
    load_system_program,
    signer_refused,
    system_program_refused,
    AccountData,
    AccountInfo,
};
use crate::config::Config;
use crate::error::{custom, failure, guard, lift, lifted_failure, ProgramError};
use crate::ncn_slash_proposal_ticket::NcnSlashProposalTicket;
use crate::pubkey::Pubkey;
use crate::slash_proposal::SlashProposal;
use crate::slasher::Slasher;

verus! {

/// The two accounts that a deletion closes, and the account that gets what
/// they held.
#[derive(Clone, Copy, Debug, PartialEq, Eq)]
pub struct Deletion {
    /// The account of the slash proposal.
    pub slash_proposal: Pubkey,
    /// The account of its ticket.
    pub ncn_slash_proposal_ticket: Pubkey,
    /// The payer.
    pub destination: Pubkey,
}

/// The number of accounts of a deletion.
pub const DELETE_SLASH_PROPOSAL_ACCOUNTS: usize = 8;

/// What a deletion in the given slot comes to: the accounts to close, or
/// the first check that fails.
///
/// The accounts are, in this order: the configuration, the NCN, the
/// operator, the slasher, the slash proposal, its ticket, the payer and
/// the system program. `registry` is what the registry said of the NCN and
/// the operator.
///
/// Any payer will do. The slot must have reached the delete deadline, and
/// the proposal must be completed.
pub open spec fn delete_slash_proposal_spec(
    program_id: Pubkey,
    accounts: Seq<AccountInfo>,
    registry: Result<(), ProgramError>,
    current_slot: u64,
) -> Result<Deletion, ProgramError> {
    if accounts.len() != DELETE_SLASH_PROPOSAL_ACCOUNTS {
        Err(ProgramError::NotEnoughAccountKeys)
    } else {
        let ncn = accounts[1];
        let operator = accounts[2];
        let proposal = accounts[4].data->SlashProposal_0;
        let payer = accounts[6];
        guard(Config::load_spec(program_id, accounts[0], false),
        guard(failure(registry),
        guard(Slasher::load_spec(program_id, accounts[3], false),
        guard(SlashProposal::load_spec(
                program_id, accounts[4], ncn.key, operator.key, accounts[3].key, true),
        guard(NcnSlashProposalTicket::load_spec(
                program_id, accounts[5], ncn.key, accounts[4].key, true),
        guard(signer_refused(payer, true),
        guard(system_program_refused(accounts[7]),
        guard(lifted_failure(proposal.deletion_refused(current_slot)),
            Ok(Deletion {
                slash_proposal: accounts[4].key,
                ncn_slash_proposal_ticket: accounts[5].key,
                destination: payer.key,
            })
        ))))))))
    }
}

/// Whether a deletion is in order but for the state of the proposal and
/// the slot: the accounts are what they should be, and the payer signed.
pub open spec fn delete_slash_proposal_in_order(
    program_id: Pubkey,
    accounts: Seq<AccountInfo>,
    registry: Result<(), ProgramError>,
) -> bool {
    let ncn = accounts[1];
    let operator = accounts[2];
    &&& accounts.len() == DELETE_SLASH_PROPOSAL_ACCOUNTS
    &&& Config::load_spec(program_id, accounts[0], false) is None
    &&& registry is Ok
    &&& Slasher::load_spec(program_id, accounts[3], false) is None
    &&& SlashProposal::load_spec(
        program_id,
        accounts[4],
        ncn.key,
        operator.key,
        accounts[3].key,
        true,
    ) is None
    &&& NcnSlashProposalTicket::load_spec(
        program_id,
        accounts[5],
        ncn.key,
        accounts[4].key,
        true,
    ) is None
    &&& signer_refused(accounts[6], true) is None
    &&& system_program_refused(accounts[7]) is None
}

/// Where a deletion is in order, it is refused for the reason for which
/// the proposal cannot be deleted, and else closes the proposal and its
/// ticket.
pub proof fn lemma_delete_slash_proposal_in_order(
    program_id: Pubkey,
    accounts: Seq<AccountInfo>,
    registry: Result<(), ProgramError>,
    current_slot: u64,
)
    requires
        delete_slash_proposal_in_order(program_id, accounts, registry),
    ensures
        delete_slash_proposal_spec(program_id, accounts, registry, current_slot) == (
        match accounts[4].data->SlashProposal_0.deletion_refused(current_slot) {
            Some(e) => Err(custom(e)),
            None => Ok(
                Deletion {
                    slash_proposal: accounts[4].key,
                    ncn_slash_proposal_ticket: accounts[5].key,
                    destination: accounts[6].key,
                },
            ),
        }),
{
}

/// Decides a deletion. On success the two accounts are to be closed; on
/// failure both stay.
pub fn process_delete_slash_proposal(
    program_id: &Pubkey,
    accounts: &[AccountInfo],
    registry: Result<(), ProgramError>,
    current_slot: u64,
) -> (res: Result<Deletion, ProgramError>)
    ensures
        res == delete_slash_proposal_spec(*program_id, accounts@, registry, current_slot),
{
    if accounts.len() != DELETE_SLASH_PROPOSAL_ACCOUNTS {
        return Err(ProgramError::NotEnoughAccountKeys);
    }
    let ncn = &accounts[1];
    let operator = &accounts[2];
    let payer = &accounts[6];

    Config::load(program_id, &accounts[0], false)?;
    registry?;
    Slasher::load(program_id, &accounts[3], false)?;
    SlashProposal::load(program_id, &accounts[4], ncn, operator, &accounts[3], true)?;
    let proposal = match accounts[4].data {
        AccountData::SlashProposal(proposal) => proposal,
        _ => {
            return Err(ProgramError::InvalidAccountData);
        },
    };
    NcnSlashProposalTicket::load(program_id, &accounts[5], ncn, &accounts[4], true)?;
    load_signer(payer, true)?;
    load_system_program(&accounts[7])?;

    lift(proposal.check_deletable(current_slot))?;

    Ok(
        Deletion {
            slash_proposal: accounts[4].key,
            ncn_slash_proposal_ticket: accounts[5].key,
            destination: payer.key,
        },
    )
}

} // verus!
