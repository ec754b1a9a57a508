//! Assigning a resolver: the one whom the policy of the NCN names assigns a
//! resolver to a slash proposal, by writing it on the ticket.

use vstd::prelude::*;
use crate::account_info::{load_signer, signer_refused, AccountData, AccountInfo};
use crate::config::Config;
use crate::error::{failure, guard, ProgramError};
use crate::ncn_resolver_program_config::NcnResolverProgramConfig;
use crate::ncn_slash_proposal_ticket::NcnSlashProposalTicket;
use crate::pubkey::Pubkey;
use crate::slash_proposal::SlashProposal;
use crate::slasher::Slasher;

verus! {

/// The number of accounts of an assignment.
pub const SET_RESOLVER_ACCOUNTS: usize = 9;

/// What an assignment comes to: the ticket as it is to be written, or the
/// first check that fails.
///
/// The accounts are, in this order: the configuration, the policy of the
/// NCN, the NCN, the operator, the slasher, the slash proposal, its ticket,
/// the one who assigns and the new resolver. `registry` is what the
/// registry said of the NCN and the operator.
///
/// The signer must be the one whom the policy names. Whether the proposal
/// is open or completed makes no difference, and the proposal is not
/// written: on the ticket only the resolver changes.
pub open spec fn set_resolver_spec(
    program_id: Pubkey,
    accounts: Seq<AccountInfo>,
    registry: Result<(), ProgramError>,
) -> Result<NcnSlashProposalTicket, ProgramError> {
    if accounts.len() != SET_RESOLVER_ACCOUNTS {
        Err(ProgramError::NotEnoughAccountKeys)
    } else {
        let policy = accounts[1].data->NcnResolverProgramConfig_0;
        let ncn = accounts[2];
        let operator = accounts[3];
        let ticket = accounts[6].data->NcnSlashProposalTicket_0;
        let admin = accounts[7];
        guard(Config::load_spec(program_id, accounts[0], false),
        guard(NcnResolverProgramConfig::load_spec(program_id, accounts[1], ncn.key, false),
        guard(failure(registry),
        guard(Slasher::load_spec(program_id, accounts[4], false),
        guard(SlashProposal::load_spec(
                program_id, accounts[5], ncn.key, operator.key, accounts[4].key, false),
        guard(NcnSlashProposalTicket::load_spec(
                program_id, accounts[6], ncn.key, accounts[5].key, true),
        guard(signer_refused(admin, true),
        guard(policy.resolver_admin_refused(admin.key),
            Ok(NcnSlashProposalTicket { resolver: accounts[8].key, ..ticket })
        ))))))))
    }
}

/// Whether an assignment is in order: the accounts are what they should
/// be, the registry has nothing to object, and the signer is the one whom
/// the policy names.
pub open spec fn set_resolver_in_order(
    program_id: Pubkey,
    accounts: Seq<AccountInfo>,
    registry: Result<(), ProgramError>,
) -> bool {
    let ncn = accounts[2];
    let operator = accounts[3];
    &&& accounts.len() == SET_RESOLVER_ACCOUNTS
    &&& Config::load_spec(program_id, accounts[0], false) is None
    &&& NcnResolverProgramConfig::load_spec(program_id, accounts[1], ncn.key, false) is None
    &&& registry is Ok
    &&& Slasher::load_spec(program_id, accounts[4], false) is None
    &&& SlashProposal::load_spec(
        program_id,
        accounts[5],
        ncn.key,
        operator.key,
        accounts[4].key,
        false,
    ) is None
    &&& NcnSlashProposalTicket::load_spec(
        program_id,
        accounts[6],
        ncn.key,
        accounts[5].key,
        true,
    ) is None
    &&& signer_refused(accounts[7], true) is None
    &&& accounts[1].data->NcnResolverProgramConfig_0.resolver_admin == accounts[7].key
}

/// An assignment succeeds exactly where it is in order, whatever the state
/// of the proposal, and then gives the ticket with the new resolver and
/// nothing else changed.
pub proof fn lemma_set_resolver_in_order(
    program_id: Pubkey,
    accounts: Seq<AccountInfo>,
    registry: Result<(), ProgramError>,
)
    ensures
        set_resolver_spec(program_id, accounts, registry) is Ok <==> set_resolver_in_order(
            program_id,
            accounts,
            registry,
        ),
        set_resolver_in_order(program_id, accounts, registry) ==> set_resolver_spec(
            program_id,
            accounts,
            registry,
        ) == Ok::<_, ProgramError>(
            NcnSlashProposalTicket {
                resolver: accounts[8].key,
                ..accounts[6].data->NcnSlashProposalTicket_0
            },
        ),
{
}

/// Decides an assignment. What it returns on success is to be written to
/// the account of the ticket; on failure nothing is to be written.
pub fn process_set_resolver(
    program_id: &Pubkey,
    accounts: &[AccountInfo],
    registry: Result<(), ProgramError>,
) -> (res: Result<NcnSlashProposalTicket, ProgramError>)
    ensures
        res == set_resolver_spec(*program_id, accounts@, registry),
{
    if accounts.len() != SET_RESOLVER_ACCOUNTS {
        return Err(ProgramError::NotEnoughAccountKeys);
    }
    let ncn = &accounts[2];
    let operator = &accounts[3];
    let admin = &accounts[7];

    Config::load(program_id, &accounts[0], false)?;
    NcnResolverProgramConfig::load(program_id, &accounts[1], ncn, false)?;
    let policy = match accounts[1].data {
        AccountData::NcnResolverProgramConfig(policy) => policy,
        _ => {
            return Err(ProgramError::InvalidAccountData);
        },
    };
    registry?;
    Slasher::load(program_id, &accounts[4], false)?;
    SlashProposal::load(program_id, &accounts[5], ncn, operator, &accounts[4], false)?;
    NcnSlashProposalTicket::load(program_id, &accounts[6], ncn, &accounts[5], true)?;
    let mut ticket = match accounts[6].data {
        AccountData::NcnSlashProposalTicket(ticket) => ticket,
        _ => {
            return Err(ProgramError::InvalidAccountData);
        },
    };
    load_signer(admin, true)?;
    policy.check_resolver_admin(&admin.key)?;

    ticket.set_resolver(accounts[8].key);
    Ok(ticket)
}

} // verus!
