//! Executing a slash proposal: the slasher's admin has the vault slash the
//! operator, once the veto window has closed.

use vstd::prelude::*;
use crate::account_info::{load_signer, signer_refused, AccountData, AccountInfo};
use crate::config::Config;
use crate::error::{custom, failure, guard, lift, lifted_failure, ProgramError};
use crate::ncn_resolver_program_config::NcnResolverProgramConfig;
use crate::ncn_slash_proposal_ticket::NcnSlashProposalTicket;
use crate::pubkey::{seeds_view, Pubkey};
use crate::resolver::Resolver;
use crate::slash_proposal::SlashProposal;
use crate::slasher::Slasher;

verus! {

/// What the registry and the vault program said of the accounts of an
/// execution that are theirs.
#[derive(Debug, PartialEq, Eq)]
pub struct ExecuteSlashChecks {
    /// Whether the vault's configuration, the NCN, the operator and the
    /// vault are what they should be.
    pub registry: Result<(), ProgramError>,
    /// Whether the tickets that link NCN, operator, vault and slasher, the
    /// one of the current epoch among them, and the token accounts of
    /// vault and slasher, are what they should be.
    pub linkage: Result<(), ProgramError>,
    /// Whether the token program is the token program.
    pub token_program: Result<(), ProgramError>,
}

/// What an execution asks of the vault, and what the proposal becomes once
/// the vault has done it.
#[derive(Debug, PartialEq, Eq)]
pub struct SlashOrder {
    /// The vault program to call.
    pub vault_program: Pubkey,
    /// The amount to slash: that of the proposal.
    pub amount: u64,
    /// The epoch in which the slash falls.
    pub epoch: u64,
    /// The seeds with which the program signs the call for the slasher.
    pub signing_seeds: Vec<Vec<u8>>,
    /// The proposal as it is to be written if the vault slashes: completed,
    /// its delete deadline moved on.
    pub staged: SlashProposal,
}

/// A slash order with its seeds as sequences of bytes.
pub struct SlashOrderView {
    pub vault_program: Pubkey,
    pub amount: u64,
    pub epoch: u64,
    pub signing_seeds: Seq<Seq<u8>>,
    pub staged: SlashProposal,
}

impl View for SlashOrder {
    type V = SlashOrderView;

    open spec fn view(&self) -> SlashOrderView {
        SlashOrderView {
            vault_program: self.vault_program,
            amount: self.amount,
            epoch: self.epoch,
            signing_seeds: seeds_view(self.signing_seeds@),
            staged: self.staged,
        }
    }
}

/// The number of accounts of an execution.
pub const EXECUTE_SLASH_ACCOUNTS: usize = 23;

/// What an execution in the given slot comes to.
///
/// The accounts are, in this order: the configuration, the policy of the
/// NCN, the vault's configuration, the NCN, the operator, the slasher, the
/// vault, the slasher's admin, the state of the operator in the NCN, the
/// ticket of the NCN with the vault, that of the operator with the vault,
/// that of the vault with the NCN, the delegation of the vault to the
/// operator, the slasher's tickets with the NCN, with the vault and, for
/// the epoch, with the operator, the token accounts of vault and slasher,
/// a resolver, the slash proposal, its ticket, the token program and the
/// vault program.
///
/// Every check is made before anything is staged, and the first that fails
/// is the failure of the whole. Where none fails, the order carries the
/// amount of the proposal, unchanged.
pub open spec fn execute_slash_spec(
    program_id: Pubkey,
    accounts: Seq<AccountInfo>,
    checks: ExecuteSlashChecks,
    current_slot: u64,
) -> Result<SlashOrderView, ProgramError> {
    if accounts.len() != EXECUTE_SLASH_ACCOUNTS {
        Err(ProgramError::NotEnoughAccountKeys)
    } else {
        let config = accounts[0].data->Config_0;
        let policy = accounts[1].data->NcnResolverProgramConfig_0;
        let ncn = accounts[3];
        let operator = accounts[4];
        let slasher = accounts[5].data->Slasher_0;
        let slasher_admin = accounts[7];
        let proposal = accounts[19].data->SlashProposal_0;
        let epoch = config.epoch_spec(current_slot);
        let staged = proposal.executed(current_slot, policy.delete_slash_proposal_duration);
        guard(Config::load_spec(program_id, accounts[0], false),
        guard(lifted_failure(failure(epoch)),
        guard(NcnResolverProgramConfig::load_spec(program_id, accounts[1], ncn.key, false),
        guard(failure(checks.registry),
        guard(Slasher::load_spec(program_id, accounts[5], false),
        guard(signer_refused(slasher_admin, true),
        guard(failure(checks.linkage),
        guard(Resolver::load_spec(program_id, accounts[18], false),
        guard(SlashProposal::load_spec(
                program_id, accounts[19], ncn.key, operator.key, accounts[5].key, false),
        guard(NcnSlashProposalTicket::load_spec(
                program_id, accounts[20], ncn.key, accounts[19].key, false),
        guard(failure(checks.token_program),
        guard(lifted_failure(slasher.admin_refused(slasher_admin.key)),
        guard(lifted_failure(failure(staged)),
            Ok(SlashOrderView {
                vault_program: config.jito_vault_program,
                amount: proposal.amount,
                epoch: epoch->Ok_0,
                signing_seeds: slasher.signing_seeds_spec(),
                staged: staged->Ok_0,
            })
        )))))))))))))
    }
}

/// Whether an execution is in order but for the state of the proposal and
/// the slot: the accounts are what they should be, registry and vault
/// program have nothing to object, an epoch has a length, and the signer
/// is the admin of the slasher.
pub open spec fn execute_slash_in_order(
    program_id: Pubkey,
    accounts: Seq<AccountInfo>,
    checks: ExecuteSlashChecks,
) -> bool {
    let config = accounts[0].data->Config_0;
    let ncn = accounts[3];
    let operator = accounts[4];
    let slasher = accounts[5].data->Slasher_0;
    let slasher_admin = accounts[7];
    &&& accounts.len() == EXECUTE_SLASH_ACCOUNTS
    &&& Config::load_spec(program_id, accounts[0], false) is None
    &&& config.epoch_length != 0
    &&& NcnResolverProgramConfig::load_spec(program_id, accounts[1], ncn.key, false) is None
    &&& checks.registry is Ok
    &&& Slasher::load_spec(program_id, accounts[5], false) is None
    &&& signer_refused(slasher_admin, true) is None
    &&& checks.linkage is Ok
    &&& Resolver::load_spec(program_id, accounts[18], false) is None
    &&& SlashProposal::load_spec(
        program_id,
        accounts[19],
        ncn.key,
        operator.key,
        accounts[5].key,
        false,
    ) is None
    &&& NcnSlashProposalTicket::load_spec(
        program_id,
        accounts[20],
        ncn.key,
        accounts[19].key,
        false,
    ) is None
    &&& checks.token_program is Ok
    &&& slasher.admin == slasher_admin.key
}

/// Where an execution is in order, it comes to what the execution makes of
/// the proposal, with the grace period of the policy: the vault is asked
/// for the amount of the proposal, in the name of the slasher.
pub proof fn lemma_execute_slash_in_order(
    program_id: Pubkey,
    accounts: Seq<AccountInfo>,
    checks: ExecuteSlashChecks,
    current_slot: u64,
)
    requires
        execute_slash_in_order(program_id, accounts, checks),
    ensures
        ({
            let config = accounts[0].data->Config_0;
            let policy = accounts[1].data->NcnResolverProgramConfig_0;
            let slasher = accounts[5].data->Slasher_0;
            let proposal = accounts[19].data->SlashProposal_0;
            match proposal.executed(current_slot, policy.delete_slash_proposal_duration) {
                Ok(staged) => execute_slash_spec(program_id, accounts, checks, current_slot)
                    == Ok::<_, ProgramError>(
                    SlashOrderView {
                        vault_program: config.jito_vault_program,
                        amount: proposal.amount,
                        epoch: (current_slot / config.epoch_length) as u64,
                        signing_seeds: slasher.signing_seeds_spec(),
                        staged,
                    },
                ),
                Err(e) => execute_slash_spec(program_id, accounts, checks, current_slot)
                    == Err::<SlashOrderView, _>(custom(e)),
            }
        }),
{
}

/// Decides an execution: checks everything, and stages what is to be
/// written. Nothing is written here: the order goes to the vault first, and
/// `settle` tells what to write once the vault has answered.
pub fn process_execute_slash(
    program_id: &Pubkey,
    accounts: &[AccountInfo],
    checks: ExecuteSlashChecks,
    current_slot: u64,
) -> (res: Result<SlashOrder, ProgramError>)
    ensures
        match execute_slash_spec(*program_id, accounts@, checks, current_slot) {
            Ok(order) => res matches Ok(o) && o@ == order,
            Err(e) => res == Err::<SlashOrder, _>(e),
        },
{
    if accounts.len() != EXECUTE_SLASH_ACCOUNTS {
        return Err(ProgramError::NotEnoughAccountKeys);
    }
    let ncn = &accounts[3];
    let operator = &accounts[4];
    let slasher_admin = &accounts[7];

    Config::load(program_id, &accounts[0], false)?;
    let config = match accounts[0].data {
        AccountData::Config(config) => config,
        _ => {
            return Err(ProgramError::InvalidAccountData);
        },
    };
    let epoch = lift(config.get_epoch(current_slot))?;

    NcnResolverProgramConfig::load(program_id, &accounts[1], ncn, false)?;
    let policy = match accounts[1].data {
        AccountData::NcnResolverProgramConfig(policy) => policy,
        _ => {
            return Err(ProgramError::InvalidAccountData);
        },
    };

    checks.registry?;

    Slasher::load(program_id, &accounts[5], false)?;
    let slasher = match accounts[5].data {
        AccountData::Slasher(slasher) => slasher,
        _ => {
            return Err(ProgramError::InvalidAccountData);
        },
    };

    load_signer(slasher_admin, true)?;
    checks.linkage?;

    Resolver::load(program_id, &accounts[18], false)?;
    SlashProposal::load(program_id, &accounts[19], ncn, operator, &accounts[5], false)?;
    let mut proposal = match accounts[19].data {
        AccountData::SlashProposal(proposal) => proposal,
        _ => {
            return Err(ProgramError::InvalidAccountData);
        },
    };
    NcnSlashProposalTicket::load(program_id, &accounts[20], ncn, &accounts[19], false)?;
    checks.token_program?;

    lift(slasher.check_admin(&slasher_admin.key))?;
    lift(proposal.execute(current_slot, policy.delete_slash_proposal_duration()))?;

    Ok(
        SlashOrder {
            vault_program: config.jito_vault_program,
            amount: proposal.amount(),
            epoch,
            signing_seeds: slasher.signing_seeds(),
            staged: proposal,
        },
    )
}

impl SlashOrder {
    /// What is to be written once the vault has answered: the staged
    /// proposal if it slashed; nothing, and its failure handed on, if it
    /// did not.
    pub open spec fn settled(self, vault: Result<(), ProgramError>) -> Result<
        SlashProposal,
        ProgramError,
    > {
        match vault {
            Ok(_) => Ok(self.staged),
            Err(e) => Err(e),
        }
    }

    /// Ends an execution with the answer of the vault.
    pub fn settle(self, vault: Result<(), ProgramError>) -> (res: Result<
        SlashProposal,
        ProgramError,
    >)
        ensures
            res == self.settled(vault),
    {
        match vault {
            Ok(_) => Ok(self.staged),
            Err(e) => Err(e),
        }
    }
}

} // verus!
