use crate::error::ProgramError;
use crate::pubkey::Pubkey;
use solana_program::program_pack::Pack;
use vstd::prelude::*;

verus! {

/// What the market reads of a token account: the token type it holds, whose
/// it is, and how many tokens are in it.
#[derive(Clone, Copy, Debug, PartialEq, Eq)]
pub struct TokenAccount {
    pub mint: Pubkey,
    pub owner: Pubkey,
    pub amount: u64,
}

/// The number of bytes that the token ledger keeps for one token account.
pub const TOKEN_ACCOUNT_LEN: usize = 165;

/// What the token ledger reads out of the stored form of a token account, or
/// the failure it reads it with.
pub uninterp spec fn unpacked_token_account(data: Seq<u8>) -> Result<TokenAccount, ProgramError>;

/// Calls `spl_token::state::Account::unpack` and keeps the mint, the owner and
/// the amount of what comes back. Nothing is proved of it: the contract gives
/// the outcome a name, which holds because it is read from `data` alone. The
/// token ledger turns data down as uninitialized or as invalid, and as nothing
/// else.
#[verifier::external_body]
pub(crate) fn unpack_token_account(data: &[u8]) -> (unpacked: Result<TokenAccount, ProgramError>)
    ensures
        unpacked == unpacked_token_account(data@),
{
    match spl_token::state::Account::unpack(data) {
        Ok(account) => Ok(TokenAccount {
            mint: Pubkey(account.mint.to_bytes()),
            owner: Pubkey(account.owner.to_bytes()),
            amount: account.amount,
        }),
        Err(solana_program::program_error::ProgramError::UninitializedAccount) => {
            Err(ProgramError::UninitializedAccount)
        },
        Err(_) => Err(ProgramError::InvalidAccountData),
    }
}

/// Reads `spl_token::state::Account::LEN`, which the token ledger's source
/// gives as 165.
#[verifier::external_body]
pub(crate) fn token_account_len() -> (len: usize)
    ensures
        len == TOKEN_ACCOUNT_LEN,
{
    spl_token::state::Account::LEN
}

} // verus!
