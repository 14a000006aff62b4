use solana_program::account_info::AccountInfo as HostInfo;
use solana_program::program_error::ProgramError as HostError;
use solana_program::program_pack::Pack;
use solana_program::pubkey::Pubkey as HostKey;
use solana_program::rent::Rent;
use solana_program::sysvar::Sysvar;
use tokenmarket::account::{AccountInfo, AccountMeta, Instruction};
use tokenmarket::error::{MarketError, ProgramError};
use tokenmarket::id;
use tokenmarket::instruction::{MarketInstructions, PriceArgs, TokensNumber};
use tokenmarket::processor::process_instruction;
use tokenmarket::pubkey::Pubkey;
use tokenmarket::request::{Invocation, RentSource, Request};
use tokenmarket::state::MarketSettings;

// A stand-in for the host ledger: it keeps the accounts, lets the market plan
// an instruction, and applies the plan wholly or not at all. Token requests
// are handed to the token program itself; currency requests are applied here.

#[derive(Clone, Debug)]
struct Entry {
    key: HostKey,
    lamports: u64,
    data: Vec<u8>,
    owner: HostKey,
}

#[derive(Debug, PartialEq)]
enum Failure {
    /// The market turned the instruction down.
    Market(ProgramError),
    /// A ledger program turned a request down.
    Ledger(HostError),
    /// The host itself turned something down.
    Host(&'static str),
}

#[derive(Clone)]
struct Host {
    entries: Vec<Entry>,
}

fn host(key: &Pubkey) -> HostKey {
    HostKey::new_from_array(key.to_bytes())
}

fn mine(key: &HostKey) -> Pubkey {
    Pubkey::new_from_array(key.to_bytes())
}

fn host_instruction(built: &Instruction) -> solana_program::instruction::Instruction {
    solana_program::instruction::Instruction {
        program_id: host(&built.program_id),
        accounts: built
            .accounts
            .iter()
            .map(|meta| solana_program::instruction::AccountMeta {
                pubkey: host(&meta.pubkey),
                is_signer: meta.is_signer,
                is_writable: meta.is_writable,
            })
            .collect(),
        data: built.data.clone(),
    }
}

impl Host {
    fn new() -> Host {
        let mut host = Host { entries: vec![] };
        let rent = Rent::default();
        let key = solana_program::sysvar::rent::id();
        let owner = solana_program::sysvar::id();
        let mut lamports = 1_009_200;
        let mut data = vec![0u8; Rent::size_of()];
        {
            let mut info =
                HostInfo::new(&key, false, true, &mut lamports, &mut data, &owner, false, 0);
            rent.to_account_info(&mut info).unwrap();
        }
        host.entries.push(Entry { key, lamports, data, owner });
        host
    }

    fn position(&mut self, key: &HostKey) -> usize {
        if let Some(found) = self.entries.iter().position(|entry| entry.key == *key) {
            return found;
        }
        self.entries.push(Entry {
            key: *key,
            lamports: 0,
            data: vec![],
            owner: solana_program::system_program::id(),
        });
        self.entries.len() - 1
    }

    fn entry(&mut self, key: &HostKey) -> &mut Entry {
        let at = self.position(key);
        &mut self.entries[at]
    }

    fn balance(&self, key: &HostKey) -> u64 {
        self.entries.iter().find(|entry| entry.key == *key).map_or(0, |entry| entry.lamports)
    }

    fn data(&self, key: &HostKey) -> Vec<u8> {
        self.entries.iter().find(|entry| entry.key == *key).map_or(vec![], |e| e.data.clone())
    }

    fn tokens(&self, key: &HostKey) -> u64 {
        spl_token::state::Account::unpack(&self.data(key)).unwrap().amount
    }

    fn add_lamports(&mut self, key: &HostKey, lamports: u64) {
        self.entry(key).lamports += lamports;
    }

    /// Hands an instruction to the token program, with `signers` as the
    /// accounts that stand behind it.
    fn run_token(
        &mut self,
        instruction: &solana_program::instruction::Instruction,
        signers: &[HostKey],
    ) -> Result<(), HostError> {
        let mut keys: Vec<HostKey> = vec![];
        for meta in &instruction.accounts {
            if !keys.contains(&meta.pubkey) {
                keys.push(meta.pubkey);
            }
        }
        let mut taken: Vec<Entry> = keys.iter().map(|key| self.entry(key).clone()).collect();
        let result = {
            let mut infos: Vec<HostInfo> = vec![];
            for entry in taken.iter_mut() {
                let Entry { key, lamports, data, owner } = entry;
                let signs = signers.contains(key)
                    && instruction.accounts.iter().any(|m| m.pubkey == *key && m.is_signer);
                let writes = instruction.accounts.iter().any(|m| m.pubkey == *key && m.is_writable);
                infos.push(HostInfo::new(key, signs, writes, lamports, data, owner, false, 0));
            }
            let ordered: Vec<HostInfo> = instruction
                .accounts
                .iter()
                .map(|meta| infos[keys.iter().position(|k| *k == meta.pubkey).unwrap()].clone())
                .collect();
            spl_token::processor::Processor::process(
                &instruction.program_id,
                &ordered,
                &instruction.data,
            )
        };
        if result.is_ok() {
            for entry in taken {
                let key = entry.key;
                *self.entry(&key) = entry;
            }
        }
        result
    }

    fn create_mint(&mut self, mint: &HostKey, authority: &HostKey) {
        let entry = self.entry(mint);
        entry.owner = spl_token::id();
        entry.data = vec![0u8; spl_token::state::Mint::LEN];
        entry.lamports = Rent::default().minimum_balance(spl_token::state::Mint::LEN);
        let instruction =
            spl_token::instruction::initialize_mint(&spl_token::id(), mint, authority, None, 0)
                .unwrap();
        self.run_token(&instruction, &[]).unwrap();
    }

    fn create_token_account(&mut self, account: &HostKey, mint: &HostKey, owner: &HostKey) {
        let entry = self.entry(account);
        entry.owner = spl_token::id();
        entry.data = vec![0u8; spl_token::state::Account::LEN];
        entry.lamports = Rent::default().minimum_balance(spl_token::state::Account::LEN);
        let instruction =
            spl_token::instruction::initialize_account(&spl_token::id(), account, mint, owner)
                .unwrap();
        self.run_token(&instruction, &[]).unwrap();
    }

    fn mint_to(&mut self, mint: &HostKey, account: &HostKey, authority: &HostKey, amount: u64) {
        let instruction = spl_token::instruction::mint_to(
            &spl_token::id(),
            mint,
            account,
            authority,
            &[authority],
            amount,
        )
        .unwrap();
        self.run_token(&instruction, &[*authority]).unwrap();
    }

    /// What the rent table asks for a new account of `request`.
    fn rent_for(&mut self, request: &Request) -> Result<u64, Failure> {
        match request {
            Request::CreateAccount { space, rent, .. } => {
                let table = match rent {
                    RentSource::Host => Rent::default(),
                    RentSource::Account(key) => {
                        let mut entry = self.entry(&host(key)).clone();
                        let info = HostInfo::new(
                            &entry.key,
                            false,
                            false,
                            &mut entry.lamports,
                            &mut entry.data,
                            &entry.owner,
                            false,
                            0,
                        );
                        Rent::from_account_info(&info).map_err(Failure::Ledger)?
                    }
                };
                Ok(table.minimum_balance(*space as usize))
            }
            _ => Ok(0),
        }
    }

    /// Applies one request of the market, which was handed `caller` as its
    /// accounts.
    fn invoke(&mut self, invocation: &Invocation, caller: &[AccountMeta]) -> Result<(), Failure> {
        let rent = self.rent_for(&invocation.request)?;
        let built = invocation.request.instruction(rent).unwrap();
        let handed = invocation.request.accounts();
        for key in &handed {
            if !caller.iter().any(|meta| meta.pubkey == *key) {
                return Err(Failure::Host("an account of the request was not handed in"));
            }
        }
        let mut signers: Vec<HostKey> =
            caller.iter().filter(|meta| meta.is_signer).map(|meta| host(&meta.pubkey)).collect();
        if let Some(seeds) = invocation.signer {
            let derived = HostKey::create_program_address(
                &[seeds.seed.as_str().as_bytes(), &[seeds.bump]],
                &host(&id()),
            )
            .map_err(|_| Failure::Host("the seeds derive no address"))?;
            signers.push(derived);
        }
        for meta in &built.accounts {
            if !handed.contains(&meta.pubkey) {
                return Err(Failure::Host("an account of the instruction was not handed along"));
            }
            if meta.is_signer && !signers.contains(&host(&meta.pubkey)) {
                return Err(Failure::Host("a signature is missing"));
            }
            let may_write = caller.iter().any(|c| c.pubkey == meta.pubkey && c.is_writable);
            if meta.is_writable && !may_write {
                return Err(Failure::Host("an account may not be changed"));
            }
        }
        let wire = host_instruction(&built);
        if wire.program_id == spl_token::id() {
            return self.run_token(&wire, &signers).map_err(Failure::Ledger);
        }
        assert_eq!(wire.program_id, solana_program::system_program::id());
        match invocation.request {
            Request::TransferCurrency { from, to, amount } => {
                let expected =
                    solana_program::system_instruction::transfer(&host(&from), &host(&to), amount);
                assert_eq!(wire, expected);
                let payer = self.entry(&host(&from));
                if !payer.data.is_empty() || payer.owner != solana_program::system_program::id() {
                    return Err(Failure::Host("the paying account is not a plain account"));
                }
                if payer.lamports < amount {
                    return Err(Failure::Host("the paying account holds too little"));
                }
                payer.lamports -= amount;
                self.entry(&host(&to)).lamports += amount;
                Ok(())
            }
            Request::CreateAccount { payer, new_account, space, owner, .. } => {
                let expected = solana_program::system_instruction::create_account(
                    &host(&payer),
                    &host(&new_account),
                    rent,
                    space,
                    &host(&owner),
                );
                assert_eq!(wire, expected);
                let made = self.entry(&host(&new_account));
                if made.lamports != 0 || !made.data.is_empty() {
                    return Err(Failure::Host("the new account is in use"));
                }
                made.lamports = rent;
                made.data = vec![0u8; space as usize];
                made.owner = host(&owner);
                let paying = self.entry(&host(&payer));
                if paying.lamports < rent {
                    return Err(Failure::Host("the paying account holds too little"));
                }
                paying.lamports -= rent;
                Ok(())
            }
            _ => unreachable!(),
        }
    }

    /// Takes an instruction for the market with the accounts that signed it,
    /// and applies what the market plans, wholly or not at all.
    fn submit(&mut self, instruction: &Instruction, signed: &[HostKey]) -> Result<(), Failure> {
        assert_eq!(instruction.program_id, id());
        let mut accounts: Vec<AccountInfo> = vec![];
        for meta in &instruction.accounts {
            if meta.is_signer && !signed.contains(&host(&meta.pubkey)) {
                return Err(Failure::Host("a signature is missing"));
            }
            let entry = self.entry(&host(&meta.pubkey)).clone();
            accounts.push(AccountInfo::new(meta.pubkey, meta.is_signer, entry.lamports, entry.data));
        }
        let plan =
            process_instruction(&id(), &accounts, &instruction.data).map_err(Failure::Market)?;
        let mut trial = self.clone();
        for invocation in &plan.invocations {
            trial.invoke(invocation, &instruction.accounts)?;
        }
        if let Some(store) = plan.store {
            let bytes = store.record.try_to_vec();
            let kept = trial.entry(&host(&store.account));
            if kept.owner != host(&id()) {
                return Err(Failure::Host("the record's account is not the market's"));
            }
            if kept.data.len() < bytes.len() {
                return Err(Failure::Host("the record's account is too small"));
            }
            kept.data[..bytes.len()].copy_from_slice(&bytes);
        }
        *self = trial;
        Ok(())
    }
}

struct TestClient {
    client: HostKey,
    client_token: HostKey,
}

impl TestClient {
    fn new(ctx: &mut Host, mint: &Mint, lamports: u64, tokens: u64) -> TestClient {
        let client = HostKey::new_unique();
        let client_token = HostKey::new_unique();
        ctx.add_lamports(&client, lamports);
        ctx.create_token_account(&client_token, &mint.key, &client);
        ctx.mint_to(&mint.key, &client_token, &mint.authority, tokens);
        TestClient { client, client_token }
    }

    fn add_lamports(&self, ctx: &mut Host, lamports: u64) {
        ctx.add_lamports(&self.client, lamports);
    }

    fn get_tokens_number(&self, ctx: &Host) -> u64 {
        ctx.tokens(&self.client_token)
    }

    fn get_balance(&self, ctx: &Host) -> u64 {
        ctx.balance(&self.client)
    }
}

struct Mint {
    key: HostKey,
    authority: HostKey,
}

fn generate_mint(ctx: &mut Host) -> Mint {
    let mint = Mint { key: HostKey::new_unique(), authority: HostKey::new_unique() };
    ctx.create_mint(&mint.key, &mint.authority);
    mint
}

fn get_admin(ctx: &mut Host, lamports: u64) -> HostKey {
    let admin = HostKey::new_unique();
    ctx.add_lamports(&admin, lamports);
    admin
}

struct TestMarket {}

impl TestMarket {
    fn new(
        ctx: &mut Host,
        admin: &HostKey,
        mint: &Mint,
        tokens: u64,
        sell_price: u64,
        buy_price: u64,
    ) -> TestMarket {
        let market = TestMarket {};
        market.initialize(ctx, admin, mint, tokens, sell_price, buy_price).unwrap();
        market
    }

    fn add_lamports(&self, ctx: &mut Host, lamports: u64) {
        let pubkey = MarketSettings::lamports_account_pubkey().unwrap().0;
        ctx.add_lamports(&host(&pubkey), lamports);
    }

    fn initialize(
        &self,
        ctx: &mut Host,
        admin: &HostKey,
        mint: &Mint,
        tokens: u64,
        sell_price: u64,
        buy_price: u64,
    ) -> Result<(), Failure> {
        let args = PriceArgs { sell_price, buy_price };
        let market_token_pubkey = MarketSettings::token_pubkey_with_bump().unwrap().0;
        let instruction =
            MarketInstructions::initialize_store(&mine(admin), &mine(&mint.key), args).unwrap();
        let mut trial = ctx.clone();
        trial.submit(&instruction, &[*admin])?;
        trial.mint_to(&mint.key, &host(&market_token_pubkey), &mint.authority, tokens);
        *ctx = trial;
        Ok(())
    }

    fn update(
        &self,
        ctx: &mut Host,
        admin: &HostKey,
        sell_price: u64,
        buy_price: u64,
    ) -> Result<(), Failure> {
        let args = PriceArgs { sell_price, buy_price };
        let instruction = MarketInstructions::update_price(&mine(admin), args).unwrap();
        ctx.submit(&instruction, &[*admin])
    }

    fn get_settings(&self, ctx: &Host) -> MarketSettings {
        let settings_pubkey = MarketSettings::settings_pubkey_with_bump().unwrap().0;
        MarketSettings::try_from_slice(&ctx.data(&host(&settings_pubkey))).unwrap()
    }

    fn get_tokens_number(&self, ctx: &Host) -> u64 {
        let token_pubkey = MarketSettings::token_pubkey_with_bump().unwrap().0;
        ctx.tokens(&host(&token_pubkey))
    }

    fn get_balance(&self, ctx: &Host) -> u64 {
        let lamports_pubkey = MarketSettings::lamports_account_pubkey().unwrap().0;
        ctx.balance(&host(&lamports_pubkey))
    }
}

fn buy_tokens(ctx: &mut Host, tokens: u64, client: &TestClient) -> Result<(), Failure> {
    let instruction = MarketInstructions::buy(
        &mine(&client.client),
        &mine(&client.client_token),
        TokensNumber(tokens),
    )
    .unwrap();
    ctx.submit(&instruction, &[client.client])
}

fn sell_tokens(ctx: &mut Host, tokens: u64, client: &TestClient) -> Result<(), Failure> {
    let instruction = MarketInstructions::sell(
        &mine(&client.client),
        &mine(&client.client_token),
        TokensNumber(tokens),
    )
    .unwrap();
    ctx.submit(&instruction, &[client.client])
}

fn insufficient_tokens() -> Failure {
    Failure::Ledger(HostError::Custom(spl_token::error::TokenError::InsufficientFunds as u32))
}

#[test]
fn test_client() {
    let tokens = 30;
    let lamports = 1000;

    let ctx = &mut Host::new();
    let mint = generate_mint(ctx);
    let client = TestClient::new(ctx, &mint, lamports, tokens);

    assert_eq!(client.get_tokens_number(ctx), tokens);
    assert_eq!(client.get_balance(ctx), lamports);

    client.add_lamports(ctx, lamports);
    assert_eq!(client.get_balance(ctx), lamports * 2);
}

#[test]
fn init_market() {
    let ctx = &mut Host::new();
    let admin = get_admin(ctx, 100_000_000);
    let mint = generate_mint(ctx);

    let lamports = 30000;
    let tokens_number = 2000;
    let sell_price = 20;
    let buy_price = 50;

    let market = TestMarket::new(ctx, &admin, &mint, tokens_number, sell_price, buy_price);

    let settings = market.get_settings(ctx);
    let maket_tokens_number = market.get_tokens_number(ctx);

    assert_eq!(settings.buy_price, buy_price);
    assert_eq!(settings.sell_price, sell_price);
    assert_eq!(maket_tokens_number, tokens_number);

    assert_eq!(market.get_balance(ctx), 0);
    market.add_lamports(ctx, lamports);
    assert_eq!(market.get_balance(ctx), lamports);
}

#[test]
fn update_market() {
    let ctx = &mut Host::new();
    let mint = generate_mint(ctx);
    let admin = get_admin(ctx, 1_000_000_000);
    let market = TestMarket::new(ctx, &admin, &mint, 0, 1, 2);

    let settings = market.get_settings(ctx);
    assert_eq!(settings.sell_price, 1);
    assert_eq!(settings.buy_price, 2);

    market.update(ctx, &admin, 100, 200).unwrap();

    let settings = market.get_settings(ctx);
    assert_eq!(settings.sell_price, 100);
    assert_eq!(settings.buy_price, 200);
}

#[test]
#[should_panic]
fn market_initalized_twice() {
    let ctx = &mut Host::new();
    let admin = get_admin(ctx, 100_000_000);
    let mint = generate_mint(ctx);

    let market = TestMarket {};
    market.initialize(ctx, &admin, &mint, 120, 0, 0).unwrap();

    market.initialize(ctx, &admin, &mint, 140, 0, 0).unwrap();
}

#[test]
fn basic_transactions() {
    let ctx = &mut Host::new();
    let mint = generate_mint(ctx);
    let admin = get_admin(ctx, 1_000_000_000);

    let mut client_lamports = 1000;
    let mut client_tokens = 15;
    let mut market_lamports = 0;
    let mut market_tokens = 10;
    let sell_price = 50;
    let buy_price = 100;

    let client = TestClient::new(ctx, &mint, 1000, client_tokens);
    let market = TestMarket::new(ctx, &admin, &mint, market_tokens, sell_price, buy_price);

    let tokens = 10;
    let lamports = tokens * buy_price;
    buy_tokens(ctx, tokens, &client).unwrap();

    market_tokens -= tokens;
    client_tokens += tokens;

    assert_eq!(client.get_balance(ctx), client_lamports - lamports);
    assert_eq!(market.get_balance(ctx), lamports);
    assert_eq!(client.get_tokens_number(ctx), client_tokens);
    assert_eq!(market.get_tokens_number(ctx), market_tokens);

    market_lamports += lamports;
    client_lamports -= lamports;

    let tokens = 10;
    let lamports = tokens * sell_price;
    sell_tokens(ctx, tokens, &client).unwrap();

    market_tokens += tokens;
    client_tokens -= tokens;

    assert_eq!(client.get_balance(ctx), client_lamports + lamports);
    assert_eq!(market.get_balance(ctx), market_lamports - lamports);
    assert_eq!(client.get_tokens_number(ctx), client_tokens);
    assert_eq!(market.get_tokens_number(ctx), market_tokens);

    market_lamports -= lamports;
    client_lamports += lamports;

    // InsufficientFunds
    let tokens = client_lamports / buy_price + 1;
    assert!(buy_tokens(ctx, tokens, &client).is_err());

    // InsufficientFunds
    let tokens = market_lamports / sell_price + 1;
    assert!(sell_tokens(ctx, tokens, &client).is_err());

    // Transfer 0 tokens is an error
    assert!(sell_tokens(ctx, 0, &client).is_err());

    let lamports = 100000;
    market.add_lamports(ctx, lamports);
    client.add_lamports(ctx, lamports);
    market_lamports += lamports;
    client_lamports += lamports;

    // InsufficientTokens
    let tokens = client_tokens + 1;
    assert!(sell_tokens(ctx, tokens, &client).is_err());

    // InsufficientTokens
    let tokens = market_tokens + 1;
    assert!(buy_tokens(ctx, tokens, &client).is_err());

    assert_eq!(client.get_balance(ctx), client_lamports);
    assert_eq!(market.get_balance(ctx), market_lamports);
    assert_eq!(client.get_tokens_number(ctx), client_tokens);
    assert_eq!(market.get_tokens_number(ctx), market_tokens);
}

#[test]
fn complex_transactions() {
    let ctx = &mut Host::new();
    let admin = get_admin(ctx, 1_000_000_000);
    let my_mint = generate_mint(ctx);
    let another_mint = generate_mint(ctx);

    let sell_price = 1;
    let buy_price = 1;
    let tokens = 100000;
    let lamports = 100000;

    let market = TestMarket::new(ctx, &admin, &my_mint, tokens, sell_price, buy_price);
    market.add_lamports(ctx, lamports);

    let another_client = TestClient::new(ctx, &another_mint, lamports, tokens);
    assert!(buy_tokens(ctx, 1, &another_client).is_err());
    assert!(sell_tokens(ctx, 1, &another_client).is_err());

    let mut strange_client = TestClient::new(ctx, &my_mint, lamports, tokens);
    strange_client.client = HostKey::new_unique();
    assert!(buy_tokens(ctx, 1, &strange_client).is_err());
    assert!(sell_tokens(ctx, 1, &strange_client).is_err());

    let mut strange_client = TestClient::new(ctx, &my_mint, lamports, tokens);
    strange_client.client_token = HostKey::new_unique();
    assert!(buy_tokens(ctx, 1, &strange_client).is_err());
    assert!(sell_tokens(ctx, 1, &strange_client).is_err());
}

#[test]
fn fixed_price_market_scenario() {
    let ctx = &mut Host::new();
    let mint = generate_mint(ctx);
    let admin = get_admin(ctx, 1_000_000_000);
    let client = TestClient::new(ctx, &mint, 1000, 15);
    let market = TestMarket::new(ctx, &admin, &mint, 10, 50, 100);

    // ten tokens at 100 each
    assert_eq!(buy_tokens(ctx, 10, &client), Ok(()));
    assert_eq!(client.get_balance(ctx), 0);
    assert_eq!(client.get_tokens_number(ctx), 25);
    assert_eq!(market.get_balance(ctx), 1000);
    assert_eq!(market.get_tokens_number(ctx), 0);

    // the reserve is empty: the client has no funds, and with funds the token
    // ledger has no tokens to hand out
    assert_eq!(
        buy_tokens(ctx, 1, &client),
        Err(Failure::Market(ProgramError::InsufficientFunds))
    );
    client.add_lamports(ctx, 100);
    assert_eq!(buy_tokens(ctx, 1, &client), Err(insufficient_tokens()));
    assert_eq!(client.get_balance(ctx), 100);
    assert_eq!(market.get_balance(ctx), 1000);
    assert_eq!(client.get_tokens_number(ctx), 25);
    assert_eq!(market.get_tokens_number(ctx), 0);

    // ten tokens at 50 each
    assert_eq!(sell_tokens(ctx, 10, &client), Ok(()));
    assert_eq!(client.get_balance(ctx), 600);
    assert_eq!(client.get_tokens_number(ctx), 15);
    assert_eq!(market.get_balance(ctx), 500);
    assert_eq!(market.get_tokens_number(ctx), 10);

    // the sale is bounded by the currency reserve: 500 pays for ten more
    assert_eq!(
        sell_tokens(ctx, 11, &client),
        Err(Failure::Market(ProgramError::InsufficientFunds))
    );
    assert_eq!(sell_tokens(ctx, 10, &client), Ok(()));
    assert_eq!(market.get_balance(ctx), 0);
    assert_eq!(client.get_balance(ctx), 1100);
    // and the client by the tokens held
    market.add_lamports(ctx, 10_000);
    assert_eq!(sell_tokens(ctx, 6, &client), Err(insufficient_tokens()));
    assert_eq!(sell_tokens(ctx, 5, &client), Ok(()));
    assert_eq!(client.get_tokens_number(ctx), 0);
    assert_eq!(market.get_tokens_number(ctx), 25);
}

#[test]
fn second_set_up_is_already_initialized() {
    let ctx = &mut Host::new();
    let admin = get_admin(ctx, 100_000_000);
    let mint = generate_mint(ctx);
    let market = TestMarket {};
    assert_eq!(market.initialize(ctx, &admin, &mint, 120, 0, 0), Ok(()));
    for (sell_price, buy_price) in [(0, 0), (1, 2), (u64::MAX, u64::MAX)] {
        assert_eq!(
            market.initialize(ctx, &admin, &mint, 140, sell_price, buy_price),
            Err(Failure::Market(ProgramError::AccountAlreadyInitialized))
        );
    }
    let other_admin = get_admin(ctx, 100_000_000);
    let other_mint = generate_mint(ctx);
    assert_eq!(
        market.initialize(ctx, &other_admin, &other_mint, 1, 3, 4),
        Err(Failure::Market(ProgramError::AccountAlreadyInitialized))
    );
    assert_eq!(market.get_tokens_number(ctx), 120);
    assert_eq!(market.get_settings(ctx).admin, mine(&admin));
}

#[test]
fn set_up_takes_the_rent_of_both_accounts_from_the_admin() {
    let ctx = &mut Host::new();
    let admin = get_admin(ctx, 100_000_000);
    let mint = generate_mint(ctx);
    let market = TestMarket::new(ctx, &admin, &mint, 7, 20, 50);
    let rent = Rent::default();
    let paid = rent.minimum_balance(165) + rent.minimum_balance(80);
    assert_eq!(ctx.balance(&admin), 100_000_000 - paid);
    let settings = market.get_settings(ctx);
    assert_eq!(
        settings,
        MarketSettings {
            admin: mine(&admin),
            sell_price: 20,
            buy_price: 50,
            mint: mine(&mint.key)
        }
    );
    let reserve = host(&MarketSettings::token_pubkey_with_bump().unwrap().0);
    let kept = spl_token::state::Account::unpack(&ctx.data(&reserve)).unwrap();
    assert_eq!(kept.mint, mint.key);
    assert_eq!(kept.owner, host(&MarketSettings::settings_pubkey_with_bump().unwrap().0));
    assert_eq!(kept.amount, 7);
}

#[test]
fn set_up_fails_where_the_admin_cannot_pay_the_rent() {
    let ctx = &mut Host::new();
    let admin = get_admin(ctx, 3_000_000);
    let mint = generate_mint(ctx);
    let market = TestMarket {};
    assert_eq!(
        market.initialize(ctx, &admin, &mint, 1, 1, 1),
        Err(Failure::Host("the paying account holds too little"))
    );
    // nothing of the plan stays
    assert_eq!(ctx.balance(&admin), 3_000_000);
    let reserve = host(&MarketSettings::token_pubkey_with_bump().unwrap().0);
    assert!(ctx.data(&reserve).is_empty());
}

#[test]
fn only_the_admin_changes_the_prices() {
    let ctx = &mut Host::new();
    let mint = generate_mint(ctx);
    let admin = get_admin(ctx, 1_000_000_000);
    let stranger = get_admin(ctx, 1_000_000_000);
    let market = TestMarket::new(ctx, &admin, &mint, 0, 1, 2);
    assert_eq!(
        market.update(ctx, &stranger, 100, 200),
        Err(Failure::Market(ProgramError::IllegalOwner))
    );
    let settings = market.get_settings(ctx);
    assert_eq!((settings.sell_price, settings.buy_price), (1, 2));
    assert_eq!(market.update(ctx, &admin, 100, 200), Ok(()));
    let settings = market.get_settings(ctx);
    assert_eq!(
        settings,
        MarketSettings {
            admin: mine(&admin),
            sell_price: 100,
            buy_price: 200,
            mint: mine(&mint.key)
        }
    );
}

#[test]
fn trade_takes_the_price_at_the_time_it_is_processed() {
    let ctx = &mut Host::new();
    let mint = generate_mint(ctx);
    let admin = get_admin(ctx, 1_000_000_000);
    let client = TestClient::new(ctx, &mint, 1000, 0);
    let market = TestMarket::new(ctx, &admin, &mint, 10, 50, 100);
    market.update(ctx, &admin, 3, 7).unwrap();
    assert_eq!(buy_tokens(ctx, 10, &client), Ok(()));
    assert_eq!(client.get_balance(ctx), 930);
    assert_eq!(market.get_balance(ctx), 70);
    assert_eq!(sell_tokens(ctx, 4, &client), Ok(()));
    assert_eq!(client.get_balance(ctx), 942);
    assert_eq!(market.get_balance(ctx), 58);
}

#[test]
fn failures_of_a_trade_are_told_apart() {
    let ctx = &mut Host::new();
    let admin = get_admin(ctx, 1_000_000_000);
    let my_mint = generate_mint(ctx);
    let another_mint = generate_mint(ctx);
    let market = TestMarket::new(ctx, &admin, &my_mint, 100000, 1, 1);
    market.add_lamports(ctx, 100000);

    let client = TestClient::new(ctx, &my_mint, 100000, 100000);
    assert_eq!(
        buy_tokens(ctx, 0, &client),
        Err(Failure::Market(ProgramError::InvalidArgument))
    );
    assert_eq!(
        sell_tokens(ctx, 0, &client),
        Err(Failure::Market(ProgramError::InvalidArgument))
    );

    let another_client = TestClient::new(ctx, &another_mint, 100000, 100000);
    let unsupported = Failure::Market(ProgramError::Custom(MarketError::UnsupportedMint.code()));
    assert_eq!(buy_tokens(ctx, 1, &another_client), Err(unsupported));
    let unsupported = Failure::Market(ProgramError::Custom(MarketError::UnsupportedMint.code()));
    assert_eq!(sell_tokens(ctx, 1, &another_client), Err(unsupported));

    let mut strange_client = TestClient::new(ctx, &my_mint, 100000, 100000);
    strange_client.client = HostKey::new_unique();
    assert_eq!(
        buy_tokens(ctx, 1, &strange_client),
        Err(Failure::Market(ProgramError::InvalidArgument))
    );

    let mut strange_client = TestClient::new(ctx, &my_mint, 100000, 100000);
    strange_client.client_token = HostKey::new_unique();
    assert_eq!(
        sell_tokens(ctx, 1, &strange_client),
        Err(Failure::Market(ProgramError::InvalidAccountData))
    );

    // an instruction without the client's signature does not reach the market
    let unsigned = MarketInstructions::buy(
        &mine(&client.client),
        &mine(&client.client_token),
        TokensNumber(1),
    )
    .unwrap();
    assert_eq!(ctx.submit(&unsigned, &[]), Err(Failure::Host("a signature is missing")));
}
