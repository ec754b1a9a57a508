//! Accounts as the operations see them: where an account lies, who owns
//! it, how it was passed, and the record that it holds.

use vstd::prelude::*;
use crate::config::Config;
use crate::error::{failure, ProgramError};
use crate::ncn_resolver_program_config::NcnResolverProgramConfig;
use crate::ncn_slash_proposal_ticket::NcnSlashProposalTicket;
use crate::pubkey::Pubkey;
use crate::resolver::Resolver;
use crate::slash_proposal::SlashProposal;
use crate::slasher::Slasher;

verus! {

/// What an account holds.
#[derive(Clone, Copy, Debug, PartialEq, Eq)]
pub enum AccountData {
    /// No data: the account was never written, or was closed.
    Empty,
    Config(Config),
    NcnResolverProgramConfig(NcnResolverProgramConfig),
    Resolver(Resolver),
    Slasher(Slasher),
    SlashProposal(SlashProposal),
    NcnSlashProposalTicket(NcnSlashProposalTicket),
    /// Data that is none of the resolver's records.
    Other,
}

/// An account that was passed to an operation.
#[derive(Clone, Copy, Debug, PartialEq, Eq)]
pub struct AccountInfo {
    /// The address of the account.
    pub key: Pubkey,
    /// The program that owns the account.
    pub owner: Pubkey,
    /// Whether the holder of the account's key signed the transaction.
    pub is_signer: bool,
    /// Whether the transaction may write to the account.
    pub is_writable: bool,
    /// What the account holds.
    pub data: AccountData,
}

/// The address of the system program, which owns every account that no
/// program has claimed: the null address.
pub open spec fn system_program_id() -> Pubkey {
    Pubkey::null()
}

impl AccountInfo {
    /// Whether the account holds no data.
    pub fn data_is_empty(&self) -> (empty: bool)
        ensures
            empty == (self.data is Empty),
    {
        match self.data {
            AccountData::Empty => true,
            _ => false,
        }
    }

    /// Why an account that should hold a record of the program is
    /// refused: another program owns it, or else something is wrong with
    /// its data, its flags or its address.
    pub open spec fn refusal(&self, program_id: Pubkey) -> ProgramError {
        if self.owner != program_id {
            ProgramError::InvalidAccountOwner
        } else {
            ProgramError::InvalidAccountData
        }
    }

    /// Refuses an account that the program does not own, that does not
    /// hold the expected kind of record, or that cannot be written where
    /// that is expected.
    pub(crate) fn check_record(
        &self,
        program_id: &Pubkey,
        holds_expected: bool,
        expect_writable: bool,
    ) -> (res: Result<(), ProgramError>)
        requires
            holds_expected ==> !(self.data is Empty),
        ensures
            res is Ok <==> self.owner == *program_id && holds_expected && (expect_writable
                ==> self.is_writable),
            res is Err ==> res == Err::<(), _>(self.refusal(*program_id)),
    {
        if self.owner != *program_id {
            return Err(ProgramError::InvalidAccountOwner);
        }
        if self.data_is_empty() {
            return Err(ProgramError::InvalidAccountData);
        }
        if expect_writable && !self.is_writable {
            return Err(ProgramError::InvalidAccountData);
        }
        if !holds_expected {
            return Err(ProgramError::InvalidAccountData);
        }
        Ok(())
    }

    /// Refuses an account that does not lie at the derived address.
    pub(crate) fn check_address(&self, found: Option<(Pubkey, u8, Vec<Vec<u8>>)>) -> (res: Result<
        (),
        ProgramError,
    >)
        ensures
            res is Ok <==> (found matches Some((key, _, _)) && key@ == self.key@),
            res is Err ==> res == Err::<(), _>(ProgramError::InvalidAccountData),
    {
        match found {
            Some((key, _, _)) => {
                proof {
                    Pubkey::lemma_view_injective(key, self.key);
                }
                if key != self.key {
                    return Err(ProgramError::InvalidAccountData);
                }
                Ok(())
            },
            None => Err(ProgramError::InvalidAccountData),
        }
    }
}

/// Why an account is refused as the one to be created at a derived
/// address: there is no such address, or the account lies elsewhere.
pub open spec fn address_refused(derived: Option<(Seq<u8>, u8)>, account: AccountInfo) -> Option<
    ProgramError,
> {
    match derived {
        Some((key, _)) if key == account.key@ => None,
        _ => Some(ProgramError::InvalidAccountData),
    }
}

/// Takes the bump seed and the seeds out of a derivation whose address is
/// that of the account; refuses any other.
pub fn expect_address(found: Option<(Pubkey, u8, Vec<Vec<u8>>)>, account: &AccountInfo) -> (res:
    Result<(u8, Vec<Vec<u8>>), ProgramError>)
    ensures
        res is Ok <==> (found matches Some((key, _, _)) && key@ == account.key@),
        res matches Ok((bump, seeds)) ==> found matches Some((_, b, s)) && b == bump && s == seeds,
        res is Err ==> res == Err::<(u8, Vec<Vec<u8>>), _>(ProgramError::InvalidAccountData),
{
    match found {
        Some((key, bump, seeds)) => {
            proof {
                Pubkey::lemma_view_injective(key, account.key);
            }
            if key != account.key {
                return Err(ProgramError::InvalidAccountData);
            }
            Ok((bump, seeds))
        },
        None => Err(ProgramError::InvalidAccountData),
    }
}

/// Why an account is refused as a signer: it did not sign, or it cannot be
/// written where that is expected.
pub open spec fn signer_refused(info: AccountInfo, expect_writable: bool) -> Option<ProgramError> {
    if !info.is_signer {
        Some(ProgramError::MissingRequiredSignature)
    } else if expect_writable && !info.is_writable {
        Some(ProgramError::InvalidAccountData)
    } else {
        None
    }
}

/// Refuses an account that did not sign, or that cannot be written where
/// that is expected.
pub fn load_signer(info: &AccountInfo, expect_writable: bool) -> (res: Result<(), ProgramError>)
    ensures
        failure(res) == signer_refused(*info, expect_writable),
{
    if !info.is_signer {
        return Err(ProgramError::MissingRequiredSignature);
    }
    if expect_writable && !info.is_writable {
        return Err(ProgramError::InvalidAccountData);
    }
    Ok(())
}

/// Why an account is refused as the system program.
pub open spec fn system_program_refused(info: AccountInfo) -> Option<ProgramError> {
    if info.key != system_program_id() {
        Some(ProgramError::IncorrectProgramId)
    } else {
        None
    }
}

/// Refuses an account that is not the system program.
pub fn load_system_program(info: &AccountInfo) -> (res: Result<(), ProgramError>)
    ensures
        failure(res) == system_program_refused(*info),
{
    if info.key != Pubkey::default() {
        return Err(ProgramError::IncorrectProgramId);
    }
    Ok(())
}

/// Why an account is not free to be created: the system program does not
/// own it, it holds data, which is to say it is in use already, or it
/// cannot be written where that is expected.
pub open spec fn system_account_refused(info: AccountInfo, is_writable: bool) -> Option<
    ProgramError,
> {
    if info.owner != system_program_id() {
        Some(ProgramError::InvalidAccountOwner)
    } else if !(info.data is Empty) {
        Some(ProgramError::AccountAlreadyInitialized)
    } else if is_writable && !info.is_writable {
        Some(ProgramError::InvalidAccountData)
    } else {
        None
    }
}

/// Refuses an account that is not free to be created.
pub fn load_system_account(info: &AccountInfo, is_writable: bool) -> (res: Result<
    (),
    ProgramError,
>)
    ensures
        failure(res) == system_account_refused(*info, is_writable),
{
    if info.owner != Pubkey::default() {
        return Err(ProgramError::InvalidAccountOwner);
    }
    if !info.data_is_empty() {
        return Err(ProgramError::AccountAlreadyInitialized);
    }
    if is_writable && !info.is_writable {
        return Err(ProgramError::InvalidAccountData);
    }
    Ok(())
}

} // verus!
