//! Delegating a token account of a slasher: the delegate admin lets a
//! delegate spend what the account holds.

use vstd::prelude::*;
use crate::account_info::{load_signer, signer_refused, AccountData, AccountInfo};
use crate::error::{failure, guard, lift, lifted_failure, ProgramError};
use crate::pubkey::{seeds_view, Pubkey};
use crate::slasher::Slasher;

verus! {

/// The approval that a delegation asks of the token program.
#[derive(Debug, PartialEq, Eq)]
pub struct TokenDelegation {
    /// The token program to call.
    pub token_program: Pubkey,
    /// The token account that is delegated.
    pub token_account: Pubkey,
    /// Who may spend from it.
    pub delegate: Pubkey,
    /// The slasher, which owns the token account.
    pub owner: Pubkey,
    /// How much the delegate may spend: no limit.
    pub amount: u64,
    /// The seeds with which the program signs the call for the slasher.
    pub signing_seeds: Vec<Vec<u8>>,
}

/// A delegation with its seeds as sequences of bytes.
pub struct TokenDelegationView {
    pub token_program: Pubkey,
    pub token_account: Pubkey,
    pub delegate: Pubkey,
    pub owner: Pubkey,
    pub amount: u64,
    pub signing_seeds: Seq<Seq<u8>>,
}

impl View for TokenDelegation {
    type V = TokenDelegationView;

    open spec fn view(&self) -> TokenDelegationView {
        TokenDelegationView {
            token_program: self.token_program,
            token_account: self.token_account,
            delegate: self.delegate,
            owner: self.owner,
            amount: self.amount,
            signing_seeds: seeds_view(self.signing_seeds@),
        }
    }
}

/// The number of accounts of a delegation.
pub const SLASHER_DELEGATE_TOKEN_ACCOUNT_ACCOUNTS: usize = 6;

/// What a delegation comes to: the approval to ask for, or the first check
/// that fails.
///
/// The accounts are, in this order: the slasher, its delegate admin, the
/// mint, the token account, the delegate and the token program. `tokens`
/// is what the token program's rules said of the mint, of the token
/// account of the slasher and of the token program itself. The signer must
/// be the delegate admin of the slasher, and one program must own both the
/// mint and the token account.
pub open spec fn slasher_delegate_token_account_spec(
    program_id: Pubkey,
    accounts: Seq<AccountInfo>,
    tokens: Result<(), ProgramError>,
) -> Result<TokenDelegationView, ProgramError> {
    if accounts.len() != SLASHER_DELEGATE_TOKEN_ACCOUNT_ACCOUNTS {
        Err(ProgramError::NotEnoughAccountKeys)
    } else {
        let slasher = accounts[0].data->Slasher_0;
        guard(Slasher::load_spec(program_id, accounts[0], false),
        guard(signer_refused(accounts[1], false),
        guard(failure(tokens),
        guard(if accounts[2].owner != accounts[3].owner {
                Some(ProgramError::InvalidAccountData)
            } else {
                None
            },
        guard(lifted_failure(slasher.delegate_admin_refused(accounts[1].key)),
            Ok(TokenDelegationView {
                token_program: accounts[5].key,
                token_account: accounts[3].key,
                delegate: accounts[4].key,
                owner: accounts[0].key,
                amount: u64::MAX,
                signing_seeds: slasher.signing_seeds_spec(),
            })
        )))))
    }
}

/// Whether a delegation is in order: the account holds a slasher, its
/// delegate admin signed, the token program has nothing to object, and one
/// program owns both the mint and the token account.
pub open spec fn slasher_delegate_token_account_in_order(
    program_id: Pubkey,
    accounts: Seq<AccountInfo>,
    tokens: Result<(), ProgramError>,
) -> bool {
    &&& accounts.len() == SLASHER_DELEGATE_TOKEN_ACCOUNT_ACCOUNTS
    &&& Slasher::load_spec(program_id, accounts[0], false) is None
    &&& signer_refused(accounts[1], false) is None
    &&& tokens is Ok
    &&& accounts[2].owner == accounts[3].owner
    &&& accounts[0].data->Slasher_0.delegate_admin == accounts[1].key
}

/// A delegation succeeds exactly where it is in order, and then asks the
/// token program to let the delegate spend without limit from the token
/// account, in the name of the slasher.
pub proof fn lemma_slasher_delegate_token_account_in_order(
    program_id: Pubkey,
    accounts: Seq<AccountInfo>,
    tokens: Result<(), ProgramError>,
)
    ensures
        slasher_delegate_token_account_spec(program_id, accounts, tokens) is Ok
            <==> slasher_delegate_token_account_in_order(program_id, accounts, tokens),
        slasher_delegate_token_account_in_order(program_id, accounts, tokens)
            ==> slasher_delegate_token_account_spec(program_id, accounts, tokens) == Ok::<
            _,
            ProgramError,
        >(
            TokenDelegationView {
                token_program: accounts[5].key,
                token_account: accounts[3].key,
                delegate: accounts[4].key,
                owner: accounts[0].key,
                amount: u64::MAX,
                signing_seeds: accounts[0].data->Slasher_0.signing_seeds_spec(),
            },
        ),
{
}

/// Decides a delegation.
pub fn process_slasher_delegate_token_account(
    program_id: &Pubkey,
    accounts: &[AccountInfo],
    tokens: Result<(), ProgramError>,
) -> (res: Result<TokenDelegation, ProgramError>)
    ensures
        match slasher_delegate_token_account_spec(*program_id, accounts@, tokens) {
            Ok(delegation) => res matches Ok(d) && d@ == delegation,
            Err(e) => res == Err::<TokenDelegation, _>(e),
        },
{
    if accounts.len() != SLASHER_DELEGATE_TOKEN_ACCOUNT_ACCOUNTS {
        return Err(ProgramError::NotEnoughAccountKeys);
    }
    Slasher::load(program_id, &accounts[0], false)?;
    let slasher = match accounts[0].data {
        AccountData::Slasher(slasher) => slasher,
        _ => {
            return Err(ProgramError::InvalidAccountData);
        },
    };
    load_signer(&accounts[1], false)?;
    tokens?;
    if accounts[2].owner != accounts[3].owner {
        return Err(ProgramError::InvalidAccountData);
    }
    lift(slasher.check_delegate_admin(&accounts[1].key))?;

    Ok(
        TokenDelegation {
            token_program: accounts[5].key,
            token_account: accounts[3].key,
            delegate: accounts[4].key,
            owner: accounts[0].key,
            amount: u64::MAX,
            signing_seeds: slasher.signing_seeds(),
        },
    )
}

} // verus!
