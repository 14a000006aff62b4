use crate::account::{instruction_view, AccountMeta, Instruction, InstructionView};
use crate::id;
use crate::pubkey::{
    rent_sysvar_id, system_program_id, token_program_id, Pubkey, RENT_SYSVAR_ID,
    SYSTEM_PROGRAM_ID, TOKEN_PROGRAM_ID,
};
use crate::state::MarketSettings;
use crate::wire::{append_u64, le_bytes, lemma_le_bytes, read_u64};
use vstd::prelude::*;

verus! {

/// The two prices of the market, in currency per token.
#[derive(Clone, Copy, Debug, PartialEq, Eq, Structural)]
pub struct PriceArgs {
    pub sell_price: u64,
    pub buy_price: u64,
}

/// A number of tokens to trade.
#[derive(Clone, Copy, Debug, PartialEq, Eq, Structural)]
pub struct TokensNumber(pub u64);

/// What the market can be asked to do.
#[derive(Clone, Copy, Debug, PartialEq, Eq, Structural)]
pub enum MarketInstructions {
    /// Sets the market up.
    ///
    /// 0. `[signer, writable]` the market's admin
    /// 1. `[writable]` the settings account, at its derived address
    /// 2. `[writable]` the market's token reserve, at its derived address
    /// 3. `[]` the mint
    /// 4. `[]` the token program
    /// 5. `[]` the system program
    /// 6. `[]` the rent table
    InitializeStore(PriceArgs),
    /// Replaces both prices.
    ///
    /// 0. `[signer]` the market's admin
    /// 1. `[writable]` the settings account, at its derived address
    UpdatePrice(PriceArgs),
    /// The client sells tokens to the market.
    ///
    /// 0. `[signer, writable]` the client
    /// 1. `[writable]` the client's token account
    /// 2. `[writable]` the market's currency reserve, at its derived address
    /// 3. `[]` the settings account, at its derived address
    /// 4. `[writable]` the market's token reserve, at its derived address
    /// 5. `[]` the token program
    /// 6. `[]` the system program
    Sell(TokensNumber),
    /// The client buys tokens from the market. The accounts are those of
    /// [`MarketInstructions::Sell`].
    Buy(TokensNumber),
}

impl MarketInstructions {
    /// The payload of the instruction: one byte that tells the four
    /// operations apart, then each number with its lowest byte first.
    pub open spec fn spec_to_vec(self) -> Seq<u8> {
        match self {
            MarketInstructions::InitializeStore(args) => seq![0u8] + le_bytes(args.sell_price)
                + le_bytes(args.buy_price),
            MarketInstructions::UpdatePrice(args) => seq![1u8] + le_bytes(args.sell_price)
                + le_bytes(args.buy_price),
            MarketInstructions::Sell(tokens) => seq![2u8] + le_bytes(tokens.0),
            MarketInstructions::Buy(tokens) => seq![3u8] + le_bytes(tokens.0),
        }
    }

    /// The instruction whose payload is `data`, if `data` is the payload of
    /// one; there is never more than one.
    pub open spec fn spec_try_from_slice(data: Seq<u8>) -> Option<MarketInstructions> {
        if exists|instruction: MarketInstructions| instruction.spec_to_vec() == data {
            Some(choose|instruction: MarketInstructions| instruction.spec_to_vec() == data)
        } else {
            None
        }
    }

    /// The byte that tells the operation of `self` apart.
    pub open spec fn spec_tag(self) -> u8 {
        match self {
            MarketInstructions::InitializeStore(_) => 0,
            MarketInstructions::UpdatePrice(_) => 1,
            MarketInstructions::Sell(_) => 2,
            MarketInstructions::Buy(_) => 3,
        }
    }

    /// The numbers that `self` carries: the two prices, or the amount alone.
    pub open spec fn spec_numbers(self) -> Seq<u64> {
        match self {
            MarketInstructions::InitializeStore(args) => seq![args.sell_price, args.buy_price],
            MarketInstructions::UpdatePrice(args) => seq![args.sell_price, args.buy_price],
            MarketInstructions::Sell(tokens) | MarketInstructions::Buy(tokens) => seq![tokens.0],
        }
    }

    /// A payload is the byte of its operation, then eight bytes for each
    /// number that the instruction carries.
    pub proof fn lemma_payload_shape(a: MarketInstructions)
        ensures
            a.spec_to_vec().len() == 1 + 8 * a.spec_numbers().len(),
            a.spec_to_vec()[0] == a.spec_tag(),
            forall|k: int|
                0 <= k < a.spec_numbers().len() ==> le_bytes(#[trigger] a.spec_numbers()[k])
                    == a.spec_to_vec().subrange(1 + 8 * k, 9 + 8 * k),
    {
    }

    /// Two instructions with one payload are the same instruction.
    pub proof fn lemma_payload(a: MarketInstructions, b: MarketInstructions)
        ensures
            a.spec_to_vec() == b.spec_to_vec() ==> a == b,
    {
        MarketInstructions::lemma_payload_shape(a);
        MarketInstructions::lemma_payload_shape(b);
        if a.spec_to_vec() == b.spec_to_vec() {
            lemma_le_bytes(a.spec_numbers()[0], b.spec_numbers()[0]);
            if a.spec_numbers().len() == 2 {
                lemma_le_bytes(a.spec_numbers()[1], b.spec_numbers()[1]);
            }
        }
    }

    /// Reading a payload back gives the instruction it was made from.
    pub proof fn lemma_round_trip(instruction: MarketInstructions)
        ensures
            MarketInstructions::spec_try_from_slice(instruction.spec_to_vec()) == Some(
                instruction,
            ),
    {
        let found = choose|other: MarketInstructions|
            other.spec_to_vec() == instruction.spec_to_vec();
        MarketInstructions::lemma_payload(found, instruction);
    }

    /// The payload of the instruction.
    pub fn try_to_vec(&self) -> (data: Vec<u8>)
        ensures
            data@ == self.spec_to_vec(),
    {
        let mut data: Vec<u8> = Vec::new();
        match self {
            MarketInstructions::InitializeStore(args) => {
                data.push(0);
                append_u64(&mut data, args.sell_price);
                append_u64(&mut data, args.buy_price);
            },
            MarketInstructions::UpdatePrice(args) => {
                data.push(1);
                append_u64(&mut data, args.sell_price);
                append_u64(&mut data, args.buy_price);
            },
            MarketInstructions::Sell(tokens) => {
                data.push(2);
                append_u64(&mut data, tokens.0);
            },
            MarketInstructions::Buy(tokens) => {
                data.push(3);
                append_u64(&mut data, tokens.0);
            },
        }
        data
    }

    /// Reads a payload. The instruction is there exactly where `data` is the
    /// payload of one: nothing may be missing and nothing may follow.
    pub fn try_from_slice(data: &[u8]) -> (instruction: Option<MarketInstructions>)
        ensures
            instruction == MarketInstructions::spec_try_from_slice(data@),
            instruction matches Some(i) ==> i.spec_to_vec() == data@,
            instruction is None ==> forall|i: MarketInstructions| i.spec_to_vec() != data@,
    {
        let len = data.len();
        if len == 0 {
            proof {
                assert forall|i: MarketInstructions| i.spec_to_vec() != data@ by {
                    MarketInstructions::lemma_payload_shape(i);
                }
            }
            return None;
        }
        let tag = data[0];
        let found = if tag <= 1 && len == 17 {
            let args = PriceArgs { sell_price: read_u64(data, 1), buy_price: read_u64(data, 9) };
            if tag == 0 {
                Some(MarketInstructions::InitializeStore(args))
            } else {
                Some(MarketInstructions::UpdatePrice(args))
            }
        } else if 2 <= tag && tag <= 3 && len == 9 {
            let tokens = TokensNumber(read_u64(data, 1));
            if tag == 2 {
                Some(MarketInstructions::Sell(tokens))
            } else {
                Some(MarketInstructions::Buy(tokens))
            }
        } else {
            None
        };
        proof {
            match found {
                Some(i) => {
                    assert(i.spec_to_vec() =~= data@);
                    let other = choose|o: MarketInstructions| o.spec_to_vec() == data@;
                    MarketInstructions::lemma_payload(other, i);
                },
                None => {
                    assert forall|i: MarketInstructions| i.spec_to_vec() != data@ by {
                        MarketInstructions::lemma_payload_shape(i);
                    }
                },
            }
        }
        found
    }

    /// The instruction that sets the market up, as a client sends it; `None`
    /// where the ledger derives no address for the settings or the reserve.
    pub open spec fn spec_initialize_store(
        admin: Pubkey,
        mint: Pubkey,
        args: PriceArgs,
    ) -> Option<InstructionView> {
        match (
            MarketSettings::spec_settings_pubkey_with_bump(),
            MarketSettings::spec_token_pubkey_with_bump(),
        ) {
            (Some(settings), Some(token)) => Some(
                InstructionView {
                    program_id: id(),
                    accounts: seq![
                        AccountMeta::new(admin, true),
                        AccountMeta::new(settings.0, false),
                        AccountMeta::new(token.0, false),
                        AccountMeta::new_readonly(mint, false),
                        AccountMeta::new_readonly(Pubkey(TOKEN_PROGRAM_ID), false),
                        AccountMeta::new_readonly(Pubkey(SYSTEM_PROGRAM_ID), false),
                        AccountMeta::new_readonly(Pubkey(RENT_SYSVAR_ID), false),
                    ],
                    data: MarketInstructions::InitializeStore(args).spec_to_vec(),
                },
            ),
            _ => None,
        }
    }

    pub fn initialize_store(
        admin: &Pubkey,
        mint: &Pubkey,
        args: PriceArgs,
    ) -> (instruction: Option<Instruction>)
        ensures
            instruction_view(instruction) == MarketInstructions::spec_initialize_store(
                *admin,
                *mint,
                args,
            ),
    {
        let market_pubkey = match MarketSettings::settings_pubkey_with_bump() {
            Some(found) => found.0,
            None => return None,
        };
        let market_token_pubkey = match MarketSettings::token_pubkey_with_bump() {
            Some(found) => found.0,
            None => return None,
        };
        let token_program = token_program_id();
        let system_program = system_program_id();
        let rent_sysvar = rent_sysvar_id();
        let accounts = vec![
            AccountMeta::new(*admin, true),
            AccountMeta::new(market_pubkey, false),
            AccountMeta::new(market_token_pubkey, false),
            AccountMeta::new_readonly(*mint, false),
            AccountMeta::new_readonly(token_program, false),
            AccountMeta::new_readonly(system_program, false),
            AccountMeta::new_readonly(rent_sysvar, false),
        ];
        let data = MarketInstructions::InitializeStore(args).try_to_vec();
        let instruction = Instruction { program_id: id(), accounts, data };
        assert(instruction@.accounts =~= MarketInstructions::spec_initialize_store(
            *admin,
            *mint,
            args,
        )->0.accounts);
        Some(instruction)
    }

    /// The instruction that replaces the prices, as the admin sends it; `None`
    /// where the ledger derives no address for the settings.
    pub open spec fn spec_update_price(admin: Pubkey, args: PriceArgs) -> Option<InstructionView> {
        match MarketSettings::spec_settings_pubkey_with_bump() {
            Some(settings) => Some(
                InstructionView {
                    program_id: id(),
                    accounts: seq![
                        AccountMeta::new_readonly(admin, true),
                        AccountMeta::new(settings.0, false),
                    ],
                    data: MarketInstructions::UpdatePrice(args).spec_to_vec(),
                },
            ),
            None => None,
        }
    }

    pub fn update_price(admin: &Pubkey, args: PriceArgs) -> (instruction: Option<Instruction>)
        ensures
            instruction_view(instruction) == MarketInstructions::spec_update_price(*admin, args),
    {
        let market_pubkey = match MarketSettings::settings_pubkey_with_bump() {
            Some(found) => found.0,
            None => return None,
        };
        let accounts = vec![
            AccountMeta::new_readonly(*admin, true),
            AccountMeta::new(market_pubkey, false),
        ];
        let data = MarketInstructions::UpdatePrice(args).try_to_vec();
        let instruction = Instruction { program_id: id(), accounts, data };
        assert(instruction@.accounts =~= MarketInstructions::spec_update_price(
            *admin,
            args,
        )->0.accounts);
        Some(instruction)
    }

    /// A trade as a client sends it, with `data` as the operation; `None`
    /// where the ledger derives no address for one of the market's accounts.
    pub open spec fn spec_sell_buy_common(
        client: Pubkey,
        client_token: Pubkey,
        data: MarketInstructions,
    ) -> Option<InstructionView> {
        match (
            MarketSettings::spec_settings_pubkey_with_bump(),
            MarketSettings::spec_token_pubkey_with_bump(),
            MarketSettings::spec_lamports_account_pubkey(),
        ) {
            (Some(settings), Some(token), Some(lamports)) => Some(
                InstructionView {
                    program_id: id(),
                    accounts: seq![
                        AccountMeta::new(client, true),
                        AccountMeta::new(client_token, false),
                        AccountMeta::new(lamports.0, false),
                        AccountMeta::new_readonly(settings.0, false),
                        AccountMeta::new(token.0, false),
                        AccountMeta::new_readonly(Pubkey(TOKEN_PROGRAM_ID), false),
                        AccountMeta::new_readonly(Pubkey(SYSTEM_PROGRAM_ID), false),
                    ],
                    data: data.spec_to_vec(),
                },
            ),
            _ => None,
        }
    }

    fn sell_buy_common(
        client: &Pubkey,
        client_token: &Pubkey,
        data: &MarketInstructions,
    ) -> (instruction: Option<Instruction>)
        ensures
            instruction_view(instruction) == MarketInstructions::spec_sell_buy_common(
                *client,
                *client_token,
                *data,
            ),
    {
        let market_settings_pubkey = match MarketSettings::settings_pubkey_with_bump() {
            Some(found) => found.0,
            None => return None,
        };
        let market_token_pubkey = match MarketSettings::token_pubkey_with_bump() {
            Some(found) => found.0,
            None => return None,
        };
        let market_lamports_pubkey = match MarketSettings::lamports_account_pubkey() {
            Some(found) => found.0,
            None => return None,
        };
        let token_program = token_program_id();
        let system_program = system_program_id();
        let accounts = vec![
            AccountMeta::new(*client, true),
            AccountMeta::new(*client_token, false),
            AccountMeta::new(market_lamports_pubkey, false),
            AccountMeta::new_readonly(market_settings_pubkey, false),
            AccountMeta::new(market_token_pubkey, false),
            AccountMeta::new_readonly(token_program, false),
            AccountMeta::new_readonly(system_program, false),
        ];
        let instruction = Instruction { program_id: id(), accounts, data: data.try_to_vec() };
        assert(instruction@.accounts =~= MarketInstructions::spec_sell_buy_common(
            *client,
            *client_token,
            *data,
        )->0.accounts);
        Some(instruction)
    }

    /// The instruction by which `client` sells tokens out of `client_token`.
    pub fn sell(
        client: &Pubkey,
        client_token: &Pubkey,
        args: TokensNumber,
    ) -> (instruction: Option<Instruction>)
        ensures
            instruction_view(instruction) == MarketInstructions::spec_sell_buy_common(
                *client,
                *client_token,
                MarketInstructions::Sell(args),
            ),
    {
        let data = MarketInstructions::Sell(args);
        MarketInstructions::sell_buy_common(client, client_token, &data)
    }

    /// The instruction by which `client` buys tokens into `client_token`.
    pub fn buy(
        client: &Pubkey,
        client_token: &Pubkey,
        args: TokensNumber,
    ) -> (instruction: Option<Instruction>)
        ensures
            instruction_view(instruction) == MarketInstructions::spec_sell_buy_common(
                *client,
                *client_token,
                MarketInstructions::Buy(args),
            ),
    {
        let data = MarketInstructions::Buy(args);
        MarketInstructions::sell_buy_common(client, client_token, &data)
    }
}

} // verus!
