use crate::account::AccountInfo;
use crate::balances::Balances;
use crate::error::{MarketError, ProgramError};
use crate::instruction::TokensNumber;
use crate::pubkey::Pubkey;
use crate::request::{Invocation, Request, Seed, SignerSeeds};
use crate::state::MarketSettings;
use crate::token::{unpack_token_account, unpacked_token_account, TokenAccount};
use vstd::prelude::*;

verus! {

/// The two directions of a trade, seen from the client.
#[derive(Clone, Copy, Debug, PartialEq, Eq, Structural)]
pub enum OperationType {
    Buy,
    Sell,
}

/// The accounts of a trade by their roles, with what was read out of them and
/// the addresses that the ledger derives for the market.
#[derive(Clone, Copy, Debug, PartialEq, Eq)]
pub struct TradeAccounts {
    /// The client's address.
    pub client: Pubkey,
    /// Whether the client signed.
    pub client_is_signer: bool,
    /// The currency the client holds.
    pub client_lamports: u64,
    /// The address of the client's token account.
    pub client_token: Pubkey,
    /// What the client's token account holds.
    pub client_token_account: TokenAccount,
    /// The address handed in as the market's currency reserve.
    pub market_lamports: Pubkey,
    /// The currency in that reserve.
    pub market_lamports_balance: u64,
    /// The address handed in as the settings account.
    pub market_settings: Pubkey,
    /// The settings record kept there.
    pub settings: MarketSettings,
    /// The address handed in as the market's token reserve.
    pub market_token: Pubkey,
    /// What the token reserve holds.
    pub market_token_account: TokenAccount,
    /// The derived settings address.
    pub expected_settings: Pubkey,
    /// The discriminant of the derived settings address.
    pub settings_bump: u8,
    /// The derived address of the token reserve.
    pub expected_token: Pubkey,
    /// The discriminant of the derived address of the currency reserve, where
    /// the ledger derives that address.
    pub lamports_bump: Option<u8>,
}

/// What a list of invocations holds, or the failure in its place.
pub open spec fn invocations_view(
    outcome: Result<Vec<Invocation>, ProgramError>,
) -> Result<Seq<Invocation>, ProgramError> {
    match outcome {
        Ok(invocations) => Ok(invocations@),
        Err(error) => Err(error),
    }
}

/// What a buy of `tokens_number` tokens at `buy_price` comes to: the failure
/// where the price does not fit or the client cannot pay, and else the two
/// requests, currency to the market first, then tokens to the client.
pub open spec fn spec_process_buy(
    tokens_number: u64,
    buy_price: u64,
    trade: TradeAccounts,
) -> Result<Seq<Invocation>, ProgramError> {
    if buy_price * tokens_number > u64::MAX {
        Err(MarketError::TooManyLamports.reported())
    } else if trade.client_lamports < buy_price * tokens_number {
        Err(ProgramError::InsufficientFunds)
    } else {
        Ok(
            seq![
                Invocation {
                    request: Request::TransferCurrency {
                        from: trade.client,
                        to: trade.market_lamports,
                        amount: (buy_price * tokens_number) as u64,
                    },
                    signer: None,
                },
                Invocation {
                    request: Request::TransferTokens {
                        source: trade.market_token,
                        destination: trade.client_token,
                        authority: trade.market_settings,
                        amount: tokens_number,
                    },
                    signer: Some(SignerSeeds { seed: Seed::Settings, bump: trade.settings_bump }),
                },
            ],
        )
    }
}

/// Plans a buy: the client pays `buy_price` for each of `tokens_number`
/// tokens into the currency reserve, and the market hands the tokens out of
/// its reserve, signing for its settings address.
pub fn process_buy(
    tokens_number: u64,
    buy_price: u64,
    trade: &TradeAccounts,
) -> (outcome: Result<Vec<Invocation>, ProgramError>)
    ensures
        invocations_view(outcome) == spec_process_buy(tokens_number, buy_price, *trade),
{
    let lamports = match buy_price.checked_mul(tokens_number) {
        Some(owed) => owed,
        None => return Err(ProgramError::from(MarketError::TooManyLamports)),
    };
    if trade.client_lamports < lamports {
        return Err(ProgramError::InsufficientFunds);
    }
    let pay = Invocation {
        request: Request::TransferCurrency {
            from: trade.client,
            to: trade.market_lamports,
            amount: lamports,
        },
        signer: None,
    };
    let hand_out = Invocation {
        request: Request::TransferTokens {
            source: trade.market_token,
            destination: trade.client_token,
            authority: trade.market_settings,
            amount: tokens_number,
        },
        signer: Some(SignerSeeds { seed: Seed::Settings, bump: trade.settings_bump }),
    };
    Ok(vec![pay, hand_out])
}

/// What a sale of `tokens_number` tokens at `sell_price` comes to: the failure
/// where the price does not fit, the reserve cannot pay or the market cannot
/// sign for its reserve, and else the two requests, currency to the client
/// first, then tokens to the market.
pub open spec fn spec_process_sell(
    tokens_number: u64,
    sell_price: u64,
    trade: TradeAccounts,
) -> Result<Seq<Invocation>, ProgramError> {
    if sell_price * tokens_number > u64::MAX {
        Err(MarketError::TooManyLamports.reported())
    } else if trade.market_lamports_balance < sell_price * tokens_number {
        Err(ProgramError::InsufficientFunds)
    } else if trade.lamports_bump is None {
        Err(ProgramError::InvalidSeeds)
    } else {
        Ok(
            seq![
                Invocation {
                    request: Request::TransferCurrency {
                        from: trade.market_lamports,
                        to: trade.client,
                        amount: (sell_price * tokens_number) as u64,
                    },
                    signer: Some(
                        SignerSeeds { seed: Seed::Lamports, bump: trade.lamports_bump->0 },
                    ),
                },
                Invocation {
                    request: Request::TransferTokens {
                        source: trade.client_token,
                        destination: trade.market_token,
                        authority: trade.client,
                        amount: tokens_number,
                    },
                    signer: None,
                },
            ],
        )
    }
}

/// Plans a sale: the market pays `sell_price` for each of `tokens_number`
/// tokens out of its currency reserve, signing for the reserve's address, and
/// the client hands the tokens into the market's reserve.
pub fn process_sell(
    tokens_number: u64,
    sell_price: u64,
    trade: &TradeAccounts,
) -> (outcome: Result<Vec<Invocation>, ProgramError>)
    ensures
        invocations_view(outcome) == spec_process_sell(tokens_number, sell_price, *trade),
{
    let lamports = match sell_price.checked_mul(tokens_number) {
        Some(owed) => owed,
        None => return Err(ProgramError::from(MarketError::TooManyLamports)),
    };
    if trade.market_lamports_balance < lamports {
        return Err(ProgramError::InsufficientFunds);
    }
    let bump = match trade.lamports_bump {
        Some(found) => found,
        None => return Err(ProgramError::InvalidSeeds),
    };
    let pay = Invocation {
        request: Request::TransferCurrency {
            from: trade.market_lamports,
            to: trade.client,
            amount: lamports,
        },
        signer: Some(SignerSeeds { seed: Seed::Lamports, bump }),
    };
    let hand_in = Invocation {
        request: Request::TransferTokens {
            source: trade.client_token,
            destination: trade.market_token,
            authority: trade.client,
            amount: tokens_number,
        },
        signer: None,
    };
    Ok(vec![pay, hand_in])
}

impl TradeAccounts {
    /// The roles of a trade as they are read from the accounts handed in: the
    /// client, the client's token account, the market's currency reserve, the
    /// settings account and the market's token reserve, in this order. There
    /// have to be five accounts, a settings record in the fourth, token
    /// accounts in the fifth and the second, and derived addresses for the
    /// settings and the token reserve; what is missing first decides the
    /// failure.
    pub open spec fn spec_read(accounts: Seq<AccountInfo>) -> Result<TradeAccounts, ProgramError> {
        if accounts.len() < 5 {
            Err(ProgramError::NotEnoughAccountKeys)
        } else {
            match (
                MarketSettings::spec_try_from_slice(accounts[3].data@),
                unpacked_token_account(accounts[4].data@),
                unpacked_token_account(accounts[1].data@),
                MarketSettings::spec_settings_pubkey_with_bump(),
                MarketSettings::spec_token_pubkey_with_bump(),
            ) {
                (None, _, _, _, _) => Err(ProgramError::BorshIoError),
                (_, Err(error), _, _, _) => Err(error),
                (_, _, Err(error), _, _) => Err(error),
                (_, _, _, None, _) => Err(ProgramError::InvalidSeeds),
                (_, _, _, _, None) => Err(ProgramError::InvalidSeeds),
                (
                    Some(settings),
                    Ok(market_token_account),
                    Ok(client_token_account),
                    Some(expected_settings),
                    Some(expected_token),
                ) => Ok(
                    TradeAccounts {
                        client: accounts[0].key,
                        client_is_signer: accounts[0].is_signer,
                        client_lamports: accounts[0].lamports,
                        client_token: accounts[1].key,
                        client_token_account,
                        market_lamports: accounts[2].key,
                        market_lamports_balance: accounts[2].lamports,
                        market_settings: accounts[3].key,
                        settings,
                        market_token: accounts[4].key,
                        market_token_account,
                        expected_settings: expected_settings.0,
                        settings_bump: expected_settings.1,
                        expected_token: expected_token.0,
                        lamports_bump: match MarketSettings::spec_lamports_account_pubkey() {
                            Some(lamports) => Some(lamports.1),
                            None => None,
                        },
                    },
                ),
            }
        }
    }

    /// Reads the roles of a trade from the accounts handed in, and derives
    /// the market's addresses anew.
    pub fn read(accounts: &[AccountInfo]) -> (outcome: Result<TradeAccounts, ProgramError>)
        ensures
            outcome == TradeAccounts::spec_read(accounts@),
    {
        if accounts.len() < 5 {
            return Err(ProgramError::NotEnoughAccountKeys);
        }
        let client_info = &accounts[0];
        let client_token_info = &accounts[1];
        let market_lamports_info = &accounts[2];
        let market_settings_info = &accounts[3];
        let market_token_info = &accounts[4];
        let settings = match MarketSettings::try_from_slice(market_settings_info.data.as_slice()) {
            Some(record) => record,
            None => return Err(ProgramError::BorshIoError),
        };
        let market_token_account = match unpack_token_account(market_token_info.data.as_slice()) {
            Ok(unpacked) => unpacked,
            Err(error) => return Err(error),
        };
        let client_token_account = match unpack_token_account(client_token_info.data.as_slice()) {
            Ok(unpacked) => unpacked,
            Err(error) => return Err(error),
        };
        let expected_settings = match MarketSettings::settings_pubkey_with_bump() {
            Some(found) => found,
            None => return Err(ProgramError::InvalidSeeds),
        };
        let expected_token = match MarketSettings::token_pubkey_with_bump() {
            Some(found) => found,
            None => return Err(ProgramError::InvalidSeeds),
        };
        let lamports_bump = match MarketSettings::lamports_account_pubkey() {
            Some(found) => Some(found.1),
            None => None,
        };
        Ok(
            TradeAccounts {
                client: client_info.key,
                client_is_signer: client_info.is_signer,
                client_lamports: client_info.lamports(),
                client_token: client_token_info.key,
                client_token_account,
                market_lamports: market_lamports_info.key,
                market_lamports_balance: market_lamports_info.lamports(),
                market_settings: market_settings_info.key,
                settings,
                market_token: market_token_info.key,
                market_token_account,
                expected_settings: expected_settings.0,
                settings_bump: expected_settings.1,
                expected_token: expected_token.0,
                lamports_bump,
            },
        )
    }

    /// Whether a trade of `tokens_number` tokens may go on, and if not, the
    /// first reason in this order: the client did not sign; no token is
    /// asked for; the client's token account is another's; the client is the
    /// market's settings account; the client's tokens are of another type
    /// than the reserve's; the settings account is not at its derived
    /// address; the token reserve is not at its derived address.
    pub open spec fn spec_validate(self, tokens_number: u64) -> Result<(), ProgramError> {
        if !self.client_is_signer {
            Err(ProgramError::MissingRequiredSignature)
        } else if tokens_number == 0 {
            Err(ProgramError::InvalidArgument)
        } else if self.client_token_account.owner != self.client {
            Err(ProgramError::InvalidArgument)
        } else if self.client == self.market_settings {
            Err(MarketError::SelfTransaction.reported())
        } else if self.client_token_account.mint != self.market_token_account.mint {
            Err(MarketError::UnsupportedMint.reported())
        } else if self.expected_settings != self.market_settings {
            Err(MarketError::SettingsPubkeyMismatch.reported())
        } else if self.expected_token != self.market_token {
            Err(MarketError::TokenPubkeyMismatch.reported())
        } else {
            Ok(())
        }
    }

    /// Checks every role before anything is asked of a ledger.
    pub fn validate(&self, tokens_number: u64) -> (outcome: Result<(), ProgramError>)
        ensures
            outcome == self.spec_validate(tokens_number),
    {
        if !self.client_is_signer {
            return Err(ProgramError::MissingRequiredSignature);
        }
        if tokens_number == 0 {
            return Err(ProgramError::InvalidArgument);
        }
        if self.client_token_account.owner != self.client {
            return Err(ProgramError::InvalidArgument);
        }
        if self.client == self.market_settings {
            return Err(ProgramError::from(MarketError::SelfTransaction));
        }
        if self.client_token_account.mint != self.market_token_account.mint {
            return Err(ProgramError::from(MarketError::UnsupportedMint));
        }
        if self.expected_settings != self.market_settings {
            return Err(ProgramError::from(MarketError::SettingsPubkeyMismatch));
        }
        if self.expected_token != self.market_token {
            return Err(ProgramError::from(MarketError::TokenPubkeyMismatch));
        }
        Ok(())
    }

    /// What a trade of `tokens_number` tokens between these accounts comes
    /// to: the first failed check, and else what the buy or the sale comes to
    /// at the price that the settings record holds now.
    pub open spec fn spec_trade(
        self,
        tokens_number: u64,
        operation: OperationType,
    ) -> Result<Seq<Invocation>, ProgramError> {
        match self.spec_validate(tokens_number) {
            Err(error) => Err(error),
            Ok(()) => match operation {
                OperationType::Buy => spec_process_buy(
                    tokens_number,
                    self.settings.buy_price,
                    self,
                ),
                OperationType::Sell => spec_process_sell(
                    tokens_number,
                    self.settings.sell_price,
                    self,
                ),
            },
        }
    }

    /// Validates the roles and plans the trade.
    pub fn trade(
        &self,
        tokens_number: u64,
        operation: OperationType,
    ) -> (outcome: Result<Vec<Invocation>, ProgramError>)
        ensures
            invocations_view(outcome) == self.spec_trade(tokens_number, operation),
    {
        match self.validate(tokens_number) {
            Err(error) => Err(error),
            Ok(()) => match operation {
                OperationType::Buy => process_buy(tokens_number, self.settings.buy_price, self),
                OperationType::Sell => process_sell(tokens_number, self.settings.sell_price, self),
            },
        }
    }
}

/// What a trade comes to for the accounts handed in: the failure of reading
/// the roles, and else what the trade between them comes to.
pub open spec fn spec_process_buy_sell(
    accounts: Seq<AccountInfo>,
    tokens_number: TokensNumber,
    operation: OperationType,
) -> Result<Seq<Invocation>, ProgramError> {
    match TradeAccounts::spec_read(accounts) {
        Err(error) => Err(error),
        Ok(trade) => trade.spec_trade(tokens_number.0, operation),
    }
}

/// Processes a buy or a sale: reads the five roles, checks them, and plans
/// the two transfers. Nothing is asked of a ledger unless every check holds.
pub fn process_buy_sell(
    accounts: &[AccountInfo],
    tokens_number: TokensNumber,
    operation: OperationType,
) -> (outcome: Result<Vec<Invocation>, ProgramError>)
    ensures
        invocations_view(outcome) == spec_process_buy_sell(accounts@, tokens_number, operation),
{
    match TradeAccounts::read(accounts) {
        Err(error) => Err(error),
        Ok(trade) => trade.trade(tokens_number.0, operation),
    }
}

/// The balances after both requests of a trade are granted.
proof fn lemma_after_two(before: Balances, plan: Seq<Invocation>)
    requires
        plan.len() == 2,
    ensures
        before.after_all(plan) == before.after(plan[0].request).after(plan[1].request),
{
    let first = before.after(plan[0].request);
    let rest = plan.subrange(1, plan.len() as int);
    let second = first.after(rest[0].request);
    let none = rest.subrange(1, rest.len() as int);
    assert(second.after_all(none) == second);
    assert(first.after_all(rest) == second);
}

/// A buy that goes on moves exactly the price of the tokens to the market and
/// exactly the tokens to the client, and moves nothing else: the client's
/// currency falls by the amount times the buy price and the reserve's
/// currency rises by as much, the client's tokens rise by the amount and the
/// reserve's tokens fall by as much. The client's token account is not the
/// token reserve here, and where the client is the currency reserve itself
/// the price is nothing.
pub proof fn lemma_buy_moves_exact_amounts(
    trade: TradeAccounts,
    tokens_number: u64,
    before: Balances,
)
    requires
        trade.spec_trade(tokens_number, OperationType::Buy) is Ok,
        trade.client == trade.market_lamports ==> tokens_number * trade.settings.buy_price == 0,
        trade.client_token != trade.market_token,
    ensures
        ({
            let after = before.after_all(
                trade.spec_trade(tokens_number, OperationType::Buy)->Ok_0,
            );
            let owed = tokens_number * trade.settings.buy_price;
            &&& after.currency_of(trade.client) == before.currency_of(trade.client) - owed
            &&& after.currency_of(trade.market_lamports) == before.currency_of(
                trade.market_lamports,
            ) + owed
            &&& after.tokens_of(trade.client_token) == before.tokens_of(trade.client_token)
                + tokens_number
            &&& after.tokens_of(trade.market_token) == before.tokens_of(trade.market_token)
                - tokens_number
            &&& forall|other: Pubkey|
                other != trade.client && other != trade.market_lamports ==> after.currency_of(other)
                    == before.currency_of(other)
            &&& forall|other: Pubkey|
                other != trade.client_token && other != trade.market_token ==> after.tokens_of(
                    other,
                ) == before.tokens_of(other)
        }),
{
    let plan = trade.spec_trade(tokens_number, OperationType::Buy)->Ok_0;
    lemma_after_two(before, plan);
    vstd::arithmetic::mul::lemma_mul_is_commutative(
        tokens_number as int,
        trade.settings.buy_price as int,
    );
}

/// A sale that goes on moves exactly the price of the tokens to the client
/// and exactly the tokens to the market, and moves nothing else: the client's
/// currency rises by the amount times the sell price and the reserve's
/// currency falls by as much, the client's tokens fall by the amount and the
/// reserve's tokens rise by as much. The client's token account is not the
/// token reserve here, and where the client is the currency reserve itself
/// the price is nothing.
pub proof fn lemma_sell_moves_exact_amounts(
    trade: TradeAccounts,
    tokens_number: u64,
    before: Balances,
)
    requires
        trade.spec_trade(tokens_number, OperationType::Sell) is Ok,
        trade.client == trade.market_lamports ==> tokens_number * trade.settings.sell_price == 0,
        trade.client_token != trade.market_token,
    ensures
        ({
            let after = before.after_all(
                trade.spec_trade(tokens_number, OperationType::Sell)->Ok_0,
            );
            let owed = tokens_number * trade.settings.sell_price;
            &&& after.currency_of(trade.client) == before.currency_of(trade.client) + owed
            &&& after.currency_of(trade.market_lamports) == before.currency_of(
                trade.market_lamports,
            ) - owed
            &&& after.tokens_of(trade.client_token) == before.tokens_of(trade.client_token)
                - tokens_number
            &&& after.tokens_of(trade.market_token) == before.tokens_of(trade.market_token)
                + tokens_number
            &&& forall|other: Pubkey|
                other != trade.client && other != trade.market_lamports ==> after.currency_of(other)
                    == before.currency_of(other)
            &&& forall|other: Pubkey|
                other != trade.client_token && other != trade.market_token ==> after.tokens_of(
                    other,
                ) == before.tokens_of(other)
        }),
{
    let plan = trade.spec_trade(tokens_number, OperationType::Sell)->Ok_0;
    lemma_after_two(before, plan);
    vstd::arithmetic::mul::lemma_mul_is_commutative(
        tokens_number as int,
        trade.settings.sell_price as int,
    );
}

/// A trade of no tokens is turned down as an invalid amount, in both
/// directions, exactly where the client signed; where the client did not
/// sign, the missing signature is told first.
pub proof fn lemma_zero_amount_is_invalid(trade: TradeAccounts, operation: OperationType)
    ensures
        trade.spec_trade(0, operation) == Err::<Seq<Invocation>, ProgramError>(
            ProgramError::InvalidArgument,
        ) <==> trade.client_is_signer,
{
}

/// The same for the accounts handed in: once the roles can be read and the
/// client signed, a trade of no tokens is turned down as an invalid amount.
pub proof fn lemma_zero_amount_is_invalid_for_accounts(
    accounts: Seq<AccountInfo>,
    operation: OperationType,
)
    requires
        TradeAccounts::spec_read(accounts) is Ok,
        accounts[0].is_signer,
    ensures
        spec_process_buy_sell(accounts, TokensNumber(0), operation) == Err::<
            Seq<Invocation>,
            ProgramError,
        >(ProgramError::InvalidArgument),
{
}

/// A buy fails for want of funds exactly where every role holds, the price
/// of the tokens fits the currency's value type and exceeds what the client
/// holds; a sale exactly where every role holds, the price fits and exceeds
/// what the market's currency reserve holds.
pub proof fn lemma_insufficient_funds(trade: TradeAccounts, tokens_number: u64)
    ensures
        trade.spec_trade(tokens_number, OperationType::Buy) == Err::<
            Seq<Invocation>,
            ProgramError,
        >(ProgramError::InsufficientFunds) <==> {
            &&& trade.spec_validate(tokens_number) is Ok
            &&& tokens_number * trade.settings.buy_price <= u64::MAX
            &&& tokens_number * trade.settings.buy_price > trade.client_lamports
        },
        trade.spec_trade(tokens_number, OperationType::Sell) == Err::<
            Seq<Invocation>,
            ProgramError,
        >(ProgramError::InsufficientFunds) <==> {
            &&& trade.spec_validate(tokens_number) is Ok
            &&& tokens_number * trade.settings.sell_price <= u64::MAX
            &&& tokens_number * trade.settings.sell_price > trade.market_lamports_balance
        },
{
    vstd::arithmetic::mul::lemma_mul_is_commutative(
        tokens_number as int,
        trade.settings.buy_price as int,
    );
    vstd::arithmetic::mul::lemma_mul_is_commutative(
        tokens_number as int,
        trade.settings.sell_price as int,
    );
}

/// A trade is turned down as an unsupported mint exactly where the client's
/// token account holds another token type than the market's reserve and the
/// checks before it hold: the client signed, asks for some tokens, owns the
/// token account and is not the settings account. The balances have no part
/// in it.
pub proof fn lemma_other_mint_is_unsupported(
    trade: TradeAccounts,
    tokens_number: u64,
    operation: OperationType,
)
    ensures
        trade.spec_trade(tokens_number, operation) == Err::<Seq<Invocation>, ProgramError>(
            MarketError::UnsupportedMint.reported(),
        ) <==> {
            &&& trade.client_is_signer
            &&& tokens_number != 0
            &&& trade.client_token_account.owner == trade.client
            &&& trade.client != trade.market_settings
            &&& trade.client_token_account.mint != trade.market_token_account.mint
        },
{
}

} // verus!
