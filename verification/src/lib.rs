//! Slashing dispute resolver: the lifecycle of a slash proposal, from the
//! moment a slasher opens it, through the veto window of its resolver, to
//! its execution against a vault and its deletion.
//!
//! Every operation is a function from the accounts it is handed, the current
//! slot and what the registry and the vault reported, to either an error or a
//! description of what is to be written. Nothing here touches the host.
//!
//! - `pubkey`, `account_info`, `error`: addresses, accounts and failures.
//! - `config`, `ncn_resolver_program_config`, `resolver`, `slasher`,
//!   `slash_proposal`, `ncn_slash_proposal_ticket`: the records, each with
//!   its address and the check that an account holds it.
//! - one module for each operation, named after it.
//! - `lifecycle`: what holds of the operations taken together.
//! - `instruction`, `sdk`: the instructions and how a client sends them.
//! - `math`: the shares of a vault.

pub mod account_info;
pub mod config;
pub mod delete_slash_proposal;
pub mod error;
pub mod execute_slash;
pub mod initialize_config;
pub mod initialize_ncn_resolver_program_config;
pub mod initialize_resolver;
pub mod initialize_slasher;
pub mod instruction;
pub mod lifecycle;
pub mod math;
pub mod ncn_resolver_program_config;
pub mod ncn_slash_proposal_ticket;
pub mod propose_slash;
pub mod pubkey;
pub mod resolver;
pub mod sdk;
pub mod set_resolver;
pub mod slash_proposal;
pub mod slasher;
pub mod slasher_delegate_token_account;
pub mod slasher_set_admin;
pub mod slasher_set_secondary_admin;
pub mod veto_slash;
