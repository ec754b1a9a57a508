//! The instructions as a client sends them: for each operation the
//! accounts that it takes, in the order in which it takes them, each with
//! what the operation needs of it, and the bytes of the instruction.

use vstd::prelude::*;
use crate::account_info::system_program_id;
use crate::instruction::{ResolverInstruction, SlasherAdminRole};
use crate::pubkey::Pubkey;

verus! {

/// An account as an instruction names it.
#[derive(Clone, Copy, Debug, PartialEq, Eq)]
pub struct AccountMeta {
    /// The address of the account.
    pub pubkey: Pubkey,
    /// Whether the holder of its key must sign.
    pub is_signer: bool,
    /// Whether the operation may write to it.
    pub is_writable: bool,
}

/// An instruction as it is sent.
#[derive(Debug, PartialEq, Eq)]
pub struct Instruction {
    /// The program that is called.
    pub program_id: Pubkey,
    /// The accounts that are passed, in order.
    pub accounts: Vec<AccountMeta>,
    /// The bytes of the instruction.
    pub data: Vec<u8>,
}

/// An account that the operation may write to.
pub open spec fn writable(pubkey: Pubkey, is_signer: bool) -> AccountMeta {
    AccountMeta { pubkey, is_signer, is_writable: true }
}

/// An account that the operation only reads.
pub open spec fn readonly(pubkey: Pubkey, is_signer: bool) -> AccountMeta {
    AccountMeta { pubkey, is_signer, is_writable: false }
}

impl AccountMeta {
    /// Names an account that the operation may write to.
    pub fn new(pubkey: Pubkey, is_signer: bool) -> (meta: Self)
        ensures
            meta == writable(pubkey, is_signer),
    {
        AccountMeta { pubkey, is_signer, is_writable: true }
    }

    /// Names an account that the operation only reads.
    pub fn new_readonly(pubkey: Pubkey, is_signer: bool) -> (meta: Self)
        ensures
            meta == readonly(pubkey, is_signer),
    {
        AccountMeta { pubkey, is_signer, is_writable: false }
    }
}

/// The accounts of `initialize_config`, in the order in which the operation takes
/// them.
pub open spec fn initialize_config_accounts(
    config: Pubkey,
    admin: Pubkey,
    restaking_program: Pubkey,
    vault_program: Pubkey,
) -> Seq<AccountMeta> {
    seq![
        writable(config, false),
        writable(admin, true),
        readonly(restaking_program, false),
        readonly(vault_program, false),
        readonly(system_program_id(), false),
    ]
}

/// Creates the configuration of the program.
pub fn initialize_config(
    program_id: &Pubkey,
    config: &Pubkey,
    admin: &Pubkey,
    restaking_program: &Pubkey,
    vault_program: &Pubkey,
) -> (instruction: Instruction)
    ensures
        instruction.program_id == *program_id,
        instruction.accounts@ == initialize_config_accounts(
            *config,
            *admin,
            *restaking_program,
            *vault_program,
        ),
        instruction.data@ == (ResolverInstruction::InitializeConfig).encoding(),
{
    let mut accounts: Vec<AccountMeta> = Vec::new();
    accounts.push(AccountMeta::new(*config, false));
    accounts.push(AccountMeta::new(*admin, true));
    accounts.push(AccountMeta::new_readonly(*restaking_program, false));
    accounts.push(AccountMeta::new_readonly(*vault_program, false));
    accounts.push(AccountMeta::new_readonly(Pubkey::default(), false));
    assert(accounts@ =~= initialize_config_accounts(
            *config,
            *admin,
            *restaking_program,
            *vault_program,
    ));
    Instruction { program_id: *program_id, accounts, data: (ResolverInstruction::InitializeConfig).try_to_vec() }
}

/// The accounts of `initialize_ncn_resolver_program_config`, in the order in which the operation takes
/// them.
pub open spec fn initialize_ncn_resolver_program_config_accounts(
    config: Pubkey,
    ncn: Pubkey,
    ncn_resolver_program_config: Pubkey,
    admin: Pubkey,
) -> Seq<AccountMeta> {
    seq![
        readonly(config, false),
        readonly(ncn, false),
        writable(ncn_resolver_program_config, false),
        writable(admin, true),
        readonly(system_program_id(), false),
    ]
}

/// Creates the policy of an NCN.
pub fn initialize_ncn_resolver_program_config(
    program_id: &Pubkey,
    config: &Pubkey,
    ncn: &Pubkey,
    ncn_resolver_program_config: &Pubkey,
    admin: &Pubkey,
    veto_duration: u64,
    delete_slash_proposal_duration: u64,
) -> (instruction: Instruction)
    ensures
        instruction.program_id == *program_id,
        instruction.accounts@ == initialize_ncn_resolver_program_config_accounts(
            *config,
            *ncn,
            *ncn_resolver_program_config,
            *admin,
        ),
        instruction.data@ == (ResolverInstruction::InitializeNcnResolverProgramConfig { veto_duration, delete_slash_proposal_duration }).encoding(),
{
    let mut accounts: Vec<AccountMeta> = Vec::new();
    accounts.push(AccountMeta::new_readonly(*config, false));
    accounts.push(AccountMeta::new_readonly(*ncn, false));
    accounts.push(AccountMeta::new(*ncn_resolver_program_config, false));
    accounts.push(AccountMeta::new(*admin, true));
    accounts.push(AccountMeta::new_readonly(Pubkey::default(), false));
    assert(accounts@ =~= initialize_ncn_resolver_program_config_accounts(
            *config,
            *ncn,
            *ncn_resolver_program_config,
            *admin,
    ));
    Instruction { program_id: *program_id, accounts, data: (ResolverInstruction::InitializeNcnResolverProgramConfig { veto_duration, delete_slash_proposal_duration }).try_to_vec() }
}

/// The accounts of `initialize_resolver`, in the order in which the operation takes
/// them.
pub open spec fn initialize_resolver_accounts(
    config: Pubkey,
    ncn_resolver_program_config: Pubkey,
    ncn: Pubkey,
    resolver: Pubkey,
    admin: Pubkey,
    base: Pubkey,
) -> Seq<AccountMeta> {
    seq![
        readonly(config, false),
        writable(ncn_resolver_program_config, false),
        readonly(ncn, false),
        writable(resolver, false),
        writable(admin, true),
        writable(base, true),
        readonly(system_program_id(), false),
    ]
}

/// Registers a resolver under an NCN.
pub fn initialize_resolver(
    program_id: &Pubkey,
    config: &Pubkey,
    ncn_resolver_program_config: &Pubkey,
    ncn: &Pubkey,
    resolver: &Pubkey,
    admin: &Pubkey,
    base: &Pubkey,
) -> (instruction: Instruction)
    ensures
        instruction.program_id == *program_id,
        instruction.accounts@ == initialize_resolver_accounts(
            *config,
            *ncn_resolver_program_config,
            *ncn,
            *resolver,
            *admin,
            *base,
        ),
        instruction.data@ == (ResolverInstruction::InitializeResolver).encoding(),
{
    let mut accounts: Vec<AccountMeta> = Vec::new();
    accounts.push(AccountMeta::new_readonly(*config, false));
    accounts.push(AccountMeta::new(*ncn_resolver_program_config, false));
    accounts.push(AccountMeta::new_readonly(*ncn, false));
    accounts.push(AccountMeta::new(*resolver, false));
    accounts.push(AccountMeta::new(*admin, true));
    accounts.push(AccountMeta::new(*base, true));
    accounts.push(AccountMeta::new_readonly(Pubkey::default(), false));
    assert(accounts@ =~= initialize_resolver_accounts(
            *config,
            *ncn_resolver_program_config,
            *ncn,
            *resolver,
            *admin,
            *base,
    ));
    Instruction { program_id: *program_id, accounts, data: (ResolverInstruction::InitializeResolver).try_to_vec() }
}

/// The accounts of `initialize_slasher`, in the order in which the operation takes
/// them.
pub open spec fn initialize_slasher_accounts(
    config: Pubkey,
    ncn_resolver_program_config: Pubkey,
    ncn: Pubkey,
    slasher: Pubkey,
    admin: Pubkey,
    base: Pubkey,
) -> Seq<AccountMeta> {
    seq![
        readonly(config, false),
        writable(ncn_resolver_program_config, false),
        readonly(ncn, false),
        writable(slasher, false),
        writable(admin, true),
        writable(base, true),
        readonly(system_program_id(), false),
    ]
}

/// Registers a slasher under an NCN.
pub fn initialize_slasher(
    program_id: &Pubkey,
    config: &Pubkey,
    ncn_resolver_program_config: &Pubkey,
    ncn: &Pubkey,
    slasher: &Pubkey,
    admin: &Pubkey,
    base: &Pubkey,
) -> (instruction: Instruction)
    ensures
        instruction.program_id == *program_id,
        instruction.accounts@ == initialize_slasher_accounts(
            *config,
            *ncn_resolver_program_config,
            *ncn,
            *slasher,
            *admin,
            *base,
        ),
        instruction.data@ == (ResolverInstruction::InitializeSlasher).encoding(),
{
    let mut accounts: Vec<AccountMeta> = Vec::new();
    accounts.push(AccountMeta::new_readonly(*config, false));
    accounts.push(AccountMeta::new(*ncn_resolver_program_config, false));
    accounts.push(AccountMeta::new_readonly(*ncn, false));
    accounts.push(AccountMeta::new(*slasher, false));
    accounts.push(AccountMeta::new(*admin, true));
    accounts.push(AccountMeta::new(*base, true));
    accounts.push(AccountMeta::new_readonly(Pubkey::default(), false));
    assert(accounts@ =~= initialize_slasher_accounts(
            *config,
            *ncn_resolver_program_config,
            *ncn,
            *slasher,
            *admin,
            *base,
    ));
    Instruction { program_id: *program_id, accounts, data: (ResolverInstruction::InitializeSlasher).try_to_vec() }
}

/// The accounts of `propose_slash`, in the order in which the operation takes
/// them.
pub open spec fn propose_slash_accounts(
    config: Pubkey,
    ncn_resolver_program_config: Pubkey,
    ncn: Pubkey,
    operator: Pubkey,
    slasher: Pubkey,
    slash_proposal: Pubkey,
    ncn_slash_proposal_ticket: Pubkey,
    slasher_admin: Pubkey,
) -> Seq<AccountMeta> {
    seq![
        readonly(config, false),
        readonly(ncn_resolver_program_config, false),
        readonly(ncn, false),
        readonly(operator, false),
        readonly(slasher, false),
        writable(slash_proposal, false),
        writable(ncn_slash_proposal_ticket, false),
        writable(slasher_admin, true),
        readonly(system_program_id(), false),
    ]
}

/// Opens a slash proposal.
pub fn propose_slash(
    program_id: &Pubkey,
    config: &Pubkey,
    ncn_resolver_program_config: &Pubkey,
    ncn: &Pubkey,
    operator: &Pubkey,
    slasher: &Pubkey,
    slash_proposal: &Pubkey,
    ncn_slash_proposal_ticket: &Pubkey,
    slasher_admin: &Pubkey,
    slash_amount: u64,
) -> (instruction: Instruction)
    ensures
        instruction.program_id == *program_id,
        instruction.accounts@ == propose_slash_accounts(
            *config,
            *ncn_resolver_program_config,
            *ncn,
            *operator,
            *slasher,
            *slash_proposal,
            *ncn_slash_proposal_ticket,
            *slasher_admin,
        ),
        instruction.data@ == (ResolverInstruction::ProposeSlash { slash_amount }).encoding(),
{
    let mut accounts: Vec<AccountMeta> = Vec::new();
    accounts.push(AccountMeta::new_readonly(*config, false));
    accounts.push(AccountMeta::new_readonly(*ncn_resolver_program_config, false));
    accounts.push(AccountMeta::new_readonly(*ncn, false));
    accounts.push(AccountMeta::new_readonly(*operator, false));
    accounts.push(AccountMeta::new_readonly(*slasher, false));
    accounts.push(AccountMeta::new(*slash_proposal, false));
    accounts.push(AccountMeta::new(*ncn_slash_proposal_ticket, false));
    accounts.push(AccountMeta::new(*slasher_admin, true));
    accounts.push(AccountMeta::new_readonly(Pubkey::default(), false));
    assert(accounts@ =~= propose_slash_accounts(
            *config,
            *ncn_resolver_program_config,
            *ncn,
            *operator,
            *slasher,
            *slash_proposal,
            *ncn_slash_proposal_ticket,
            *slasher_admin,
    ));
    Instruction { program_id: *program_id, accounts, data: (ResolverInstruction::ProposeSlash { slash_amount }).try_to_vec() }
}

/// The accounts of `set_resolver`, in the order in which the operation takes
/// them.
pub open spec fn set_resolver_accounts(
    config: Pubkey,
    ncn_resolver_program_config: Pubkey,
    ncn: Pubkey,
    operator: Pubkey,
    slasher: Pubkey,
    slash_proposal: Pubkey,
    ncn_slash_proposal_ticket: Pubkey,
    ncn_resolver_admin: Pubkey,
    new_resolver_info: Pubkey,
) -> Seq<AccountMeta> {
    seq![
        readonly(config, false),
        readonly(ncn_resolver_program_config, false),
        readonly(ncn, false),
        readonly(operator, false),
        readonly(slasher, false),
        readonly(slash_proposal, false),
        writable(ncn_slash_proposal_ticket, false),
        writable(ncn_resolver_admin, true),
        readonly(new_resolver_info, false),
    ]
}

/// Assigns a resolver to a slash proposal.
pub fn set_resolver(
    program_id: &Pubkey,
    config: &Pubkey,
    ncn_resolver_program_config: &Pubkey,
    ncn: &Pubkey,
    operator: &Pubkey,
    slasher: &Pubkey,
    slash_proposal: &Pubkey,
    ncn_slash_proposal_ticket: &Pubkey,
    ncn_resolver_admin: &Pubkey,
    new_resolver_info: &Pubkey,
) -> (instruction: Instruction)
    ensures
        instruction.program_id == *program_id,
        instruction.accounts@ == set_resolver_accounts(
            *config,
            *ncn_resolver_program_config,
            *ncn,
            *operator,
            *slasher,
            *slash_proposal,
            *ncn_slash_proposal_ticket,
            *ncn_resolver_admin,
            *new_resolver_info,
        ),
        instruction.data@ == (ResolverInstruction::SetResolver).encoding(),
{
    let mut accounts: Vec<AccountMeta> = Vec::new();
    accounts.push(AccountMeta::new_readonly(*config, false));
    accounts.push(AccountMeta::new_readonly(*ncn_resolver_program_config, false));
    accounts.push(AccountMeta::new_readonly(*ncn, false));
    accounts.push(AccountMeta::new_readonly(*operator, false));
    accounts.push(AccountMeta::new_readonly(*slasher, false));
    accounts.push(AccountMeta::new_readonly(*slash_proposal, false));
    accounts.push(AccountMeta::new(*ncn_slash_proposal_ticket, false));
    accounts.push(AccountMeta::new(*ncn_resolver_admin, true));
    accounts.push(AccountMeta::new_readonly(*new_resolver_info, false));
    assert(accounts@ =~= set_resolver_accounts(
            *config,
            *ncn_resolver_program_config,
            *ncn,
            *operator,
            *slasher,
            *slash_proposal,
            *ncn_slash_proposal_ticket,
            *ncn_resolver_admin,
            *new_resolver_info,
    ));
    Instruction { program_id: *program_id, accounts, data: (ResolverInstruction::SetResolver).try_to_vec() }
}

/// The accounts of `veto_slash`, in the order in which the operation takes
/// them.
pub open spec fn veto_slash_accounts(
    config: Pubkey,
    ncn: Pubkey,
    operator: Pubkey,
    slasher: Pubkey,
    resolver: Pubkey,
    slash_proposal: Pubkey,
    ncn_slash_proposal_ticket: Pubkey,
    resolver_admin: Pubkey,
) -> Seq<AccountMeta> {
    seq![
        readonly(config, false),
        readonly(ncn, false),
        readonly(operator, false),
        readonly(slasher, false),
        readonly(resolver, false),
        writable(slash_proposal, false),
        writable(ncn_slash_proposal_ticket, false),
        writable(resolver_admin, true),
        readonly(system_program_id(), false),
    ]
}

/// Vetoes a slash proposal.
pub fn veto_slash(
    program_id: &Pubkey,
    config: &Pubkey,
    ncn: &Pubkey,
    operator: &Pubkey,
    slasher: &Pubkey,
    resolver: &Pubkey,
    slash_proposal: &Pubkey,
    ncn_slash_proposal_ticket: &Pubkey,
    resolver_admin: &Pubkey,
) -> (instruction: Instruction)
    ensures
        instruction.program_id == *program_id,
        instruction.accounts@ == veto_slash_accounts(
            *config,
            *ncn,
            *operator,
            *slasher,
            *resolver,
            *slash_proposal,
            *ncn_slash_proposal_ticket,
            *resolver_admin,
        ),
        instruction.data@ == (ResolverInstruction::VetoSlash).encoding(),
{
    let mut accounts: Vec<AccountMeta> = Vec::new();
    accounts.push(AccountMeta::new_readonly(*config, false));
    accounts.push(AccountMeta::new_readonly(*ncn, false));
    accounts.push(AccountMeta::new_readonly(*operator, false));
    accounts.push(AccountMeta::new_readonly(*slasher, false));
    accounts.push(AccountMeta::new_readonly(*resolver, false));
    accounts.push(AccountMeta::new(*slash_proposal, false));
    accounts.push(AccountMeta::new(*ncn_slash_proposal_ticket, false));
    accounts.push(AccountMeta::new(*resolver_admin, true));
    accounts.push(AccountMeta::new_readonly(Pubkey::default(), false));
    assert(accounts@ =~= veto_slash_accounts(
            *config,
            *ncn,
            *operator,
            *slasher,
            *resolver,
            *slash_proposal,
            *ncn_slash_proposal_ticket,
            *resolver_admin,
    ));
    Instruction { program_id: *program_id, accounts, data: (ResolverInstruction::VetoSlash).try_to_vec() }
}

/// The accounts of `execute_slash`, in the order in which the operation takes
/// them.
pub open spec fn execute_slash_accounts(
    config: Pubkey,
    ncn_resolver_program_config: Pubkey,
    vault_config: Pubkey,
    ncn: Pubkey,
    operator: Pubkey,
    slasher: Pubkey,
    vault: Pubkey,
    slasher_admin: Pubkey,
    ncn_operator_state: Pubkey,
    ncn_vault_ticket: Pubkey,
    operator_vault_ticket: Pubkey,
    vault_ncn_ticket: Pubkey,
    vault_operator_delegation: Pubkey,
    ncn_vault_slasher_ticket: Pubkey,
    vault_ncn_slasher_ticket: Pubkey,
    vault_ncn_slasher_operator_ticket: Pubkey,
    vault_token_account: Pubkey,
    slasher_token_account: Pubkey,
    resolver: Pubkey,
    slash_proposal: Pubkey,
    ncn_slash_proposal_ticket: Pubkey,
    token_program: Pubkey,
    jito_vault_program: Pubkey,
) -> Seq<AccountMeta> {
    seq![
        readonly(config, false),
        readonly(ncn_resolver_program_config, false),
        readonly(vault_config, false),
        readonly(ncn, false),
        readonly(operator, false),
        readonly(slasher, false),
        writable(vault, false),
        writable(slasher_admin, true),
        readonly(ncn_operator_state, false),
        readonly(ncn_vault_ticket, false),
        readonly(operator_vault_ticket, false),
        readonly(vault_ncn_ticket, false),
        writable(vault_operator_delegation, false),
        readonly(ncn_vault_slasher_ticket, false),
        readonly(vault_ncn_slasher_ticket, false),
        writable(vault_ncn_slasher_operator_ticket, false),
        writable(vault_token_account, false),
        writable(slasher_token_account, false),
        readonly(resolver, false),
        writable(slash_proposal, false),
        writable(ncn_slash_proposal_ticket, false),
        readonly(token_program, false),
        readonly(jito_vault_program, false),
    ]
}

/// Executes a slash proposal.
pub fn execute_slash(
    program_id: &Pubkey,
    config: &Pubkey,
    ncn_resolver_program_config: &Pubkey,
    vault_config: &Pubkey,
    ncn: &Pubkey,
    operator: &Pubkey,
    slasher: &Pubkey,
    vault: &Pubkey,
    slasher_admin: &Pubkey,
    ncn_operator_state: &Pubkey,
    ncn_vault_ticket: &Pubkey,
    operator_vault_ticket: &Pubkey,
    vault_ncn_ticket: &Pubkey,
    vault_operator_delegation: &Pubkey,
    ncn_vault_slasher_ticket: &Pubkey,
    vault_ncn_slasher_ticket: &Pubkey,
    vault_ncn_slasher_operator_ticket: &Pubkey,
    vault_token_account: &Pubkey,
    slasher_token_account: &Pubkey,
    resolver: &Pubkey,
    slash_proposal: &Pubkey,
    ncn_slash_proposal_ticket: &Pubkey,
    token_program: &Pubkey,
    jito_vault_program: &Pubkey,
) -> (instruction: Instruction)
    ensures
        instruction.program_id == *program_id,
        instruction.accounts@ == execute_slash_accounts(
            *config,
            *ncn_resolver_program_config,
            *vault_config,
            *ncn,
            *operator,
            *slasher,
            *vault,
            *slasher_admin,
            *ncn_operator_state,
            *ncn_vault_ticket,
            *operator_vault_ticket,
            *vault_ncn_ticket,
            *vault_operator_delegation,
            *ncn_vault_slasher_ticket,
            *vault_ncn_slasher_ticket,
            *vault_ncn_slasher_operator_ticket,
            *vault_token_account,
            *slasher_token_account,
            *resolver,
            *slash_proposal,
            *ncn_slash_proposal_ticket,
            *token_program,
            *jito_vault_program,
        ),
        instruction.data@ == (ResolverInstruction::ExecuteSlash).encoding(),
{
    let mut accounts: Vec<AccountMeta> = Vec::new();
    accounts.push(AccountMeta::new_readonly(*config, false));
    accounts.push(AccountMeta::new_readonly(*ncn_resolver_program_config, false));
    accounts.push(AccountMeta::new_readonly(*vault_config, false));
    accounts.push(AccountMeta::new_readonly(*ncn, false));
    accounts.push(AccountMeta::new_readonly(*operator, false));
    accounts.push(AccountMeta::new_readonly(*slasher, false));
    accounts.push(AccountMeta::new(*vault, false));
    accounts.push(AccountMeta::new(*slasher_admin, true));
    accounts.push(AccountMeta::new_readonly(*ncn_operator_state, false));
    accounts.push(AccountMeta::new_readonly(*ncn_vault_ticket, false));
    accounts.push(AccountMeta::new_readonly(*operator_vault_ticket, false));
    accounts.push(AccountMeta::new_readonly(*vault_ncn_ticket, false));
    accounts.push(AccountMeta::new(*vault_operator_delegation, false));
    accounts.push(AccountMeta::new_readonly(*ncn_vault_slasher_ticket, false));
    accounts.push(AccountMeta::new_readonly(*vault_ncn_slasher_ticket, false));
    accounts.push(AccountMeta::new(*vault_ncn_slasher_operator_ticket, false));
    accounts.push(AccountMeta::new(*vault_token_account, false));
    accounts.push(AccountMeta::new(*slasher_token_account, false));
    accounts.push(AccountMeta::new_readonly(*resolver, false));
    accounts.push(AccountMeta::new(*slash_proposal, false));
    accounts.push(AccountMeta::new(*ncn_slash_proposal_ticket, false));
    accounts.push(AccountMeta::new_readonly(*token_program, false));
    accounts.push(AccountMeta::new_readonly(*jito_vault_program, false));
    assert(accounts@ =~= execute_slash_accounts(
            *config,
            *ncn_resolver_program_config,
            *vault_config,
            *ncn,
            *operator,
            *slasher,
            *vault,
            *slasher_admin,
            *ncn_operator_state,
            *ncn_vault_ticket,
            *operator_vault_ticket,
            *vault_ncn_ticket,
            *vault_operator_delegation,
            *ncn_vault_slasher_ticket,
            *vault_ncn_slasher_ticket,
            *vault_ncn_slasher_operator_ticket,
            *vault_token_account,
            *slasher_token_account,
            *resolver,
            *slash_proposal,
            *ncn_slash_proposal_ticket,
            *token_program,
            *jito_vault_program,
    ));
    Instruction { program_id: *program_id, accounts, data: (ResolverInstruction::ExecuteSlash).try_to_vec() }
}

/// The accounts of `slasher_delegate_token_account`, in the order in which the operation takes
/// them.
pub open spec fn slasher_delegate_token_account_accounts(
    slasher: Pubkey,
    delegate_admin: Pubkey,
    token_mint: Pubkey,
    token_account: Pubkey,
    delegate: Pubkey,
    token_program: Pubkey,
) -> Seq<AccountMeta> {
    seq![
        readonly(slasher, false),
        readonly(delegate_admin, true),
        writable(token_mint, false),
        writable(token_account, false),
        readonly(delegate, false),
        readonly(token_program, false),
    ]
}

/// Delegates a token account of a slasher.
pub fn slasher_delegate_token_account(
    program_id: &Pubkey,
    slasher: &Pubkey,
    delegate_admin: &Pubkey,
    token_mint: &Pubkey,
    token_account: &Pubkey,
    delegate: &Pubkey,
    token_program: &Pubkey,
) -> (instruction: Instruction)
    ensures
        instruction.program_id == *program_id,
        instruction.accounts@ == slasher_delegate_token_account_accounts(
            *slasher,
            *delegate_admin,
            *token_mint,
            *token_account,
            *delegate,
            *token_program,
        ),
        instruction.data@ == (ResolverInstruction::SlasherDelegateTokenAccount).encoding(),
{
    let mut accounts: Vec<AccountMeta> = Vec::new();
    accounts.push(AccountMeta::new_readonly(*slasher, false));
    accounts.push(AccountMeta::new_readonly(*delegate_admin, true));
    accounts.push(AccountMeta::new(*token_mint, false));
    accounts.push(AccountMeta::new(*token_account, false));
    accounts.push(AccountMeta::new_readonly(*delegate, false));
    accounts.push(AccountMeta::new_readonly(*token_program, false));
    assert(accounts@ =~= slasher_delegate_token_account_accounts(
            *slasher,
            *delegate_admin,
            *token_mint,
            *token_account,
            *delegate,
            *token_program,
    ));
    Instruction { program_id: *program_id, accounts, data: (ResolverInstruction::SlasherDelegateTokenAccount).try_to_vec() }
}

/// The accounts of `slasher_set_admin`, in the order in which the operation takes
/// them.
pub open spec fn slasher_set_admin_accounts(
    slasher: Pubkey,
    old_admin: Pubkey,
    new_admin: Pubkey,
) -> Seq<AccountMeta> {
    seq![
        writable(slasher, false),
        readonly(old_admin, true),
        readonly(new_admin, true),
    ]
}

/// Hands a slasher over to a new admin.
pub fn slasher_set_admin(
    program_id: &Pubkey,
    slasher: &Pubkey,
    old_admin: &Pubkey,
    new_admin: &Pubkey,
) -> (instruction: Instruction)
    ensures
        instruction.program_id == *program_id,
        instruction.accounts@ == slasher_set_admin_accounts(
            *slasher,
            *old_admin,
            *new_admin,
        ),
        instruction.data@ == (ResolverInstruction::SlasherSetAdmin).encoding(),
{
    let mut accounts: Vec<AccountMeta> = Vec::new();
    accounts.push(AccountMeta::new(*slasher, false));
    accounts.push(AccountMeta::new_readonly(*old_admin, true));
    accounts.push(AccountMeta::new_readonly(*new_admin, true));
    assert(accounts@ =~= slasher_set_admin_accounts(
            *slasher,
            *old_admin,
            *new_admin,
    ));
    Instruction { program_id: *program_id, accounts, data: (ResolverInstruction::SlasherSetAdmin).try_to_vec() }
}

/// The accounts of `slasher_set_secondary_admin`, in the order in which the operation takes
/// them.
pub open spec fn slasher_set_secondary_admin_accounts(
    slasher: Pubkey,
    admin: Pubkey,
    new_admin: Pubkey,
) -> Seq<AccountMeta> {
    seq![
        writable(slasher, false),
        readonly(admin, true),
        readonly(new_admin, false),
    ]
}

/// Hands out a role of a slasher.
pub fn slasher_set_secondary_admin(
    program_id: &Pubkey,
    slasher: &Pubkey,
    admin: &Pubkey,
    new_admin: &Pubkey,
    slasher_admin_role: SlasherAdminRole,
) -> (instruction: Instruction)
    ensures
        instruction.program_id == *program_id,
        instruction.accounts@ == slasher_set_secondary_admin_accounts(
            *slasher,
            *admin,
            *new_admin,
        ),
        instruction.data@ == (ResolverInstruction::SlasherSetSecondaryAdmin(slasher_admin_role)).encoding(),
{
    let mut accounts: Vec<AccountMeta> = Vec::new();
    accounts.push(AccountMeta::new(*slasher, false));
    accounts.push(AccountMeta::new_readonly(*admin, true));
    accounts.push(AccountMeta::new_readonly(*new_admin, false));
    assert(accounts@ =~= slasher_set_secondary_admin_accounts(
            *slasher,
            *admin,
            *new_admin,
    ));
    Instruction { program_id: *program_id, accounts, data: (ResolverInstruction::SlasherSetSecondaryAdmin(slasher_admin_role)).try_to_vec() }
}

/// The accounts of `delete_slash_proposal`, in the order in which the operation takes
/// them.
pub open spec fn delete_slash_proposal_accounts(
    config: Pubkey,
    ncn: Pubkey,
    operator: Pubkey,
    slasher: Pubkey,
    slash_proposal: Pubkey,
    ncn_slash_proposal_ticket: Pubkey,
    payer: Pubkey,
) -> Seq<AccountMeta> {
    seq![
        readonly(config, false),
        readonly(ncn, false),
        readonly(operator, false),
        readonly(slasher, false),
        writable(slash_proposal, false),
        writable(ncn_slash_proposal_ticket, false),
        writable(payer, true),
        readonly(system_program_id(), false),
    ]
}

/// Deletes a completed slash proposal and its ticket.
pub fn delete_slash_proposal(
    program_id: &Pubkey,
    config: &Pubkey,
    ncn: &Pubkey,
    operator: &Pubkey,
    slasher: &Pubkey,
    slash_proposal: &Pubkey,
    ncn_slash_proposal_ticket: &Pubkey,
    payer: &Pubkey,
) -> (instruction: Instruction)
    ensures
        instruction.program_id == *program_id,
        instruction.accounts@ == delete_slash_proposal_accounts(
            *config,
            *ncn,
            *operator,
            *slasher,
            *slash_proposal,
            *ncn_slash_proposal_ticket,
            *payer,
        ),
        instruction.data@ == (ResolverInstruction::DeleteSlashProposal).encoding(),
{
    let mut accounts: Vec<AccountMeta> = Vec::new();
    accounts.push(AccountMeta::new_readonly(*config, false));
    accounts.push(AccountMeta::new_readonly(*ncn, false));
    accounts.push(AccountMeta::new_readonly(*operator, false));
    accounts.push(AccountMeta::new_readonly(*slasher, false));
    accounts.push(AccountMeta::new(*slash_proposal, false));
    accounts.push(AccountMeta::new(*ncn_slash_proposal_ticket, false));
    accounts.push(AccountMeta::new(*payer, true));
    accounts.push(AccountMeta::new_readonly(Pubkey::default(), false));
    assert(accounts@ =~= delete_slash_proposal_accounts(
            *config,
            *ncn,
            *operator,
            *slasher,
            *slash_proposal,
            *ncn_slash_proposal_ticket,
            *payer,
    ));
    Instruction { program_id: *program_id, accounts, data: (ResolverInstruction::DeleteSlashProposal).try_to_vec() }
}

} // verus!
