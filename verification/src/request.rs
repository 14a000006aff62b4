//! What the market asks of the two ledgers: the requests, who stands behind
//! each, and the order in which they are put.

use crate::account::{instruction_view, AccountMeta, Instruction, InstructionView};
use crate::error::ProgramError;
use crate::pubkey::{
    rent_sysvar_id, token_program_id, Pubkey, RENT_SYSVAR_ID, SYSTEM_PROGRAM_ID, TOKEN_PROGRAM_ID,
};
use crate::state::{MarketSettings, LAMPORTS_SEED, SETTINGS_SEED, TOKEN_SEED};
use crate::wire::le_bytes;
use vstd::prelude::*;

verus! {

/// The three seeds from which the market's addresses are derived.
#[derive(Clone, Copy, Debug, PartialEq, Eq, Structural)]
pub enum Seed {
    Settings,
    Token,
    Lamports,
}

impl Seed {
    pub open spec fn spec_as_str(self) -> &'static str {
        match self {
            Seed::Settings => SETTINGS_SEED,
            Seed::Token => TOKEN_SEED,
            Seed::Lamports => LAMPORTS_SEED,
        }
    }

    /// The seed as it is written.
    #[verifier::when_used_as_spec(spec_as_str)]
    pub fn as_str(self) -> (seed: &'static str)
        ensures
            seed == self.spec_as_str(),
    {
        match self {
            Seed::Settings => SETTINGS_SEED,
            Seed::Token => TOKEN_SEED,
            Seed::Lamports => LAMPORTS_SEED,
        }
    }
}

/// What lets the market sign for one of its derived addresses: the seed of
/// the address and the discriminant that was found with it.
#[derive(Clone, Copy, Debug, PartialEq, Eq, Structural)]
pub struct SignerSeeds {
    pub seed: Seed,
    pub bump: u8,
}

/// Where the price of a new account's storage is read.
#[derive(Clone, Copy, Debug, PartialEq, Eq)]
pub enum RentSource {
    /// In the account at this address, which has to hold the rent table.
    Account(Pubkey),
    /// In the rent table that the host keeps.
    Host,
}

/// One request to a ledger.
#[derive(Clone, Copy, Debug, PartialEq, Eq)]
pub enum Request {
    /// To the currency ledger: make `new_account` with `space` bytes, owned by
    /// `owner` and holding what its storage costs, out of `payer`'s currency.
    CreateAccount {
        payer: Pubkey,
        new_account: Pubkey,
        space: u64,
        owner: Pubkey,
        rent: RentSource,
    },
    /// To the token ledger: set `account` up to hold tokens of `mint` for
    /// `owner`.
    InitializeTokenAccount { account: Pubkey, mint: Pubkey, owner: Pubkey },
    /// To the currency ledger: move `amount` from `from` to `to`.
    TransferCurrency { from: Pubkey, to: Pubkey, amount: u64 },
    /// To the token ledger: move `amount` tokens from `source` to
    /// `destination`, on the word of `authority`.
    TransferTokens { source: Pubkey, destination: Pubkey, authority: Pubkey, amount: u64 },
}

/// A request with the derived address that the market signs it for, if it
/// signs.
#[derive(Clone, Copy, Debug, PartialEq, Eq)]
pub struct Invocation {
    pub request: Request,
    pub signer: Option<SignerSeeds>,
}

/// A settings record to keep in the account at an address.
#[derive(Clone, Copy, Debug, PartialEq, Eq)]
pub struct Store {
    pub account: Pubkey,
    pub record: MarketSettings,
}

/// All that one instruction asks for: the invocations in their order, and
/// after them the record to keep, if one is to be kept. The host applies all
/// of it or nothing.
#[derive(Clone, Debug, PartialEq, Eq)]
pub struct Plan {
    pub invocations: Vec<Invocation>,
    pub store: Option<Store>,
}

/// What a [`Plan`] holds, as mathematical values.
pub struct PlanView {
    pub invocations: Seq<Invocation>,
    pub store: Option<Store>,
}

impl View for Plan {
    type V = PlanView;

    open spec fn view(&self) -> PlanView {
        PlanView { invocations: self.invocations@, store: self.store }
    }
}

/// What a plan holds, or the failure in its place.
pub open spec fn plan_view(outcome: Result<Plan, ProgramError>) -> Result<PlanView, ProgramError> {
    match outcome {
        Ok(plan) => Ok(plan@),
        Err(error) => Err(error),
    }
}

/// The payload by which the currency ledger is asked to move `lamports`.
pub uninterp spec fn system_transfer_data(from: Pubkey, to: Pubkey, lamports: u64) -> Seq<u8>;

/// The payload by which the currency ledger is asked to make an account.
pub uninterp spec fn system_create_account_data(
    from: Pubkey,
    to: Pubkey,
    lamports: u64,
    space: u64,
    owner: Pubkey,
) -> Seq<u8>;

/// Calls `solana_program::system_instruction::transfer`. Nothing is proved of
/// it. Its source gives the system program as the one addressed, and the two
/// accounts: `from` signs and both may change. The payload is what `bincode`
/// writes for the transfer; the contract gives it a name.
#[verifier::external_body]
pub(crate) fn system_transfer(from: &Pubkey, to: &Pubkey, lamports: u64) -> (built: Instruction)
    ensures
        built@.program_id == Pubkey(SYSTEM_PROGRAM_ID),
        built@.accounts == seq![AccountMeta::new(*from, true), AccountMeta::new(*to, false)],
        built@.data == system_transfer_data(*from, *to, lamports),
{
    let host = |key: &Pubkey| solana_program::pubkey::Pubkey::new_from_array(key.0);
    let mine = |meta: &solana_program::instruction::AccountMeta| AccountMeta {
        pubkey: Pubkey(meta.pubkey.to_bytes()),
        is_signer: meta.is_signer,
        is_writable: meta.is_writable,
    };
    let built = solana_program::system_instruction::transfer(&host(from), &host(to), lamports);
    Instruction {
        program_id: Pubkey(built.program_id.to_bytes()),
        accounts: built.accounts.iter().map(mine).collect(),
        data: built.data,
    }
}

/// Calls `solana_program::system_instruction::create_account`. Nothing is
/// proved of it. Its source gives the system program as the one addressed,
/// and the two accounts: both sign and both may change. The payload is what
/// `bincode` writes for the creation; the contract gives it a name.
#[verifier::external_body]
pub(crate) fn system_create_account(
    from: &Pubkey,
    to: &Pubkey,
    lamports: u64,
    space: u64,
    owner: &Pubkey,
) -> (built: Instruction)
    ensures
        built@.program_id == Pubkey(SYSTEM_PROGRAM_ID),
        built@.accounts == seq![AccountMeta::new(*from, true), AccountMeta::new(*to, true)],
        built@.data == system_create_account_data(*from, *to, lamports, space, *owner),
{
    let host = |key: &Pubkey| solana_program::pubkey::Pubkey::new_from_array(key.0);
    let mine = |meta: &solana_program::instruction::AccountMeta| AccountMeta {
        pubkey: Pubkey(meta.pubkey.to_bytes()),
        is_signer: meta.is_signer,
        is_writable: meta.is_writable,
    };
    let built = solana_program::system_instruction::create_account(
        &host(from), &host(to), lamports, space, &host(owner),
    );
    Instruction {
        program_id: Pubkey(built.program_id.to_bytes()),
        accounts: built.accounts.iter().map(mine).collect(),
        data: built.data,
    }
}

/// The instruction by which the token ledger is asked to move tokens on the
/// word of an authority for which one other account signs.
pub open spec fn token_transfer_instruction(
    program: Pubkey,
    source: Pubkey,
    destination: Pubkey,
    authority: Pubkey,
    signer: Pubkey,
    amount: u64,
) -> InstructionView {
    InstructionView {
        program_id: program,
        accounts: seq![
            AccountMeta::new(source, false),
            AccountMeta::new(destination, false),
            AccountMeta::new_readonly(authority, false),
            AccountMeta::new_readonly(signer, true),
        ],
        data: seq![3u8] + le_bytes(amount),
    }
}

/// Calls `spl_token::instruction::transfer` with `signer` as the one signing
/// account, and drops the failure where there is one. Nothing is proved of
/// it. Its source turns down every program but the token program and else
/// gives back the program, the source and the destination as accounts that
/// may change, the authority as one that does not sign, the signer, and as
/// payload the byte 3 and the amount with its lowest byte first.
#[verifier::external_body]
pub(crate) fn token_transfer(
    program: &Pubkey,
    source: &Pubkey,
    destination: &Pubkey,
    authority: &Pubkey,
    signer: &Pubkey,
    amount: u64,
) -> (built: Option<Instruction>)
    ensures
        *program != Pubkey(TOKEN_PROGRAM_ID) ==> built is None,
        *program == Pubkey(TOKEN_PROGRAM_ID) ==> built is Some && built->0@
            == token_transfer_instruction(
            *program,
            *source,
            *destination,
            *authority,
            *signer,
            amount,
        ),
{
    let host = |key: &Pubkey| solana_program::pubkey::Pubkey::new_from_array(key.0);
    let mine = |meta: &solana_program::instruction::AccountMeta| AccountMeta {
        pubkey: Pubkey(meta.pubkey.to_bytes()),
        is_signer: meta.is_signer,
        is_writable: meta.is_writable,
    };
    let (from, to, by) = (host(source), host(destination), host(authority));
    let built =
        spl_token::instruction::transfer(&host(program), &from, &to, &by, &[&host(signer)], amount);
    built.ok().map(|ix| Instruction {
        program_id: Pubkey(ix.program_id.to_bytes()),
        accounts: ix.accounts.iter().map(mine).collect(),
        data: ix.data,
    })
}

/// The instruction by which the token ledger is asked to set an account up.
pub open spec fn token_initialize_account_instruction(
    program: Pubkey,
    account: Pubkey,
    mint: Pubkey,
    owner: Pubkey,
) -> InstructionView {
    InstructionView {
        program_id: program,
        accounts: seq![
            AccountMeta::new(account, false),
            AccountMeta::new_readonly(mint, false),
            AccountMeta::new_readonly(owner, false),
            AccountMeta::new_readonly(Pubkey(RENT_SYSVAR_ID), false),
        ],
        data: seq![1u8],
    }
}

/// Calls `spl_token::instruction::initialize_account`, and drops the failure
/// where there is one. Nothing is proved of it. Its source turns down every
/// program but the token program and else gives back the program, the
/// account as one that may change, the mint, the owner and the rent table as
/// accounts that are read, and as payload the byte 1.
#[verifier::external_body]
pub(crate) fn token_initialize_account(
    program: &Pubkey,
    account: &Pubkey,
    mint: &Pubkey,
    owner: &Pubkey,
) -> (built: Option<Instruction>)
    ensures
        *program != Pubkey(TOKEN_PROGRAM_ID) ==> built is None,
        *program == Pubkey(TOKEN_PROGRAM_ID) ==> built is Some && built->0@
            == token_initialize_account_instruction(*program, *account, *mint, *owner),
{
    let host = |key: &Pubkey| solana_program::pubkey::Pubkey::new_from_array(key.0);
    let mine = |meta: &solana_program::instruction::AccountMeta| AccountMeta {
        pubkey: Pubkey(meta.pubkey.to_bytes()),
        is_signer: meta.is_signer,
        is_writable: meta.is_writable,
    };
    let built = spl_token::instruction::initialize_account(
        &host(program), &host(account), &host(mint), &host(owner),
    );
    built.ok().map(|ix| Instruction {
        program_id: Pubkey(ix.program_id.to_bytes()),
        accounts: ix.accounts.iter().map(mine).collect(),
        data: ix.data,
    })
}

impl Request {
    /// The instruction by which the request is put to its ledger. A new
    /// account is given `rent` to hold; the other requests do not read it.
    pub open spec fn spec_instruction(self, rent: u64) -> InstructionView {
        match self {
            Request::CreateAccount { payer, new_account, space, owner, .. } => InstructionView {
                program_id: Pubkey(SYSTEM_PROGRAM_ID),
                accounts: seq![AccountMeta::new(payer, true), AccountMeta::new(new_account, true)],
                data: system_create_account_data(payer, new_account, rent, space, owner),
            },
            Request::InitializeTokenAccount { account, mint, owner } => {
                token_initialize_account_instruction(
                    Pubkey(TOKEN_PROGRAM_ID),
                    account,
                    mint,
                    owner,
                )
            },
            Request::TransferCurrency { from, to, amount } => InstructionView {
                program_id: Pubkey(SYSTEM_PROGRAM_ID),
                accounts: seq![AccountMeta::new(from, true), AccountMeta::new(to, false)],
                data: system_transfer_data(from, to, amount),
            },
            Request::TransferTokens { source, destination, authority, amount } =>
                token_transfer_instruction(
                    Pubkey(TOKEN_PROGRAM_ID),
                    source,
                    destination,
                    authority,
                    authority,
                    amount,
                ),
        }
    }

    /// Builds the instruction by which the request is put to its ledger.
    /// `rent` is what the rent table asks for the space of a new account.
    /// Every request can be built: the instruction is always there.
    pub fn instruction(&self, rent: u64) -> (built: Option<Instruction>)
        ensures
            instruction_view(built) == Some(self.spec_instruction(rent)),
    {
        match self {
            Request::CreateAccount { payer, new_account, space, owner, rent: _ } => {
                Some(system_create_account(payer, new_account, rent, *space, owner))
            },
            Request::InitializeTokenAccount { account, mint, owner } => {
                token_initialize_account(&token_program_id(), account, mint, owner)
            },
            Request::TransferCurrency { from, to, amount } => {
                Some(system_transfer(from, to, *amount))
            },
            Request::TransferTokens { source, destination, authority, amount } => {
                let program = token_program_id();
                token_transfer(&program, source, destination, authority, authority, *amount)
            },
        }
    }

    /// The addresses of the accounts that are handed along with the request.
    pub open spec fn spec_accounts(self) -> Seq<Pubkey> {
        match self {
            Request::CreateAccount { payer, new_account, .. } => seq![payer, new_account],
            Request::InitializeTokenAccount { account, mint, owner } => seq![
                owner,
                mint,
                account,
                Pubkey(RENT_SYSVAR_ID),
            ],
            Request::TransferCurrency { from, to, .. } => seq![from, to],
            Request::TransferTokens { source, destination, authority, .. } => seq![
                authority,
                source,
                destination,
            ],
        }
    }

    /// Lists the accounts to hand along with the request.
    pub fn accounts(&self) -> (handed: Vec<Pubkey>)
        ensures
            handed@ == self.spec_accounts(),
    {
        match self {
            Request::CreateAccount { payer, new_account, .. } => vec![*payer, *new_account],
            Request::InitializeTokenAccount { account, mint, owner } => vec![
                *owner,
                *mint,
                *account,
                rent_sysvar_id(),
            ],
            Request::TransferCurrency { from, to, .. } => vec![*from, *to],
            Request::TransferTokens { source, destination, authority, .. } => vec![
                *authority,
                *source,
                *destination,
            ],
        }
    }
}

} // verus!
