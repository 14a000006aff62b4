use crate::account::AccountInfo;
use crate::error::{MarketError, ProgramError};
use crate::id;
use crate::instruction::PriceArgs;
use crate::pubkey::{token_program_id, Pubkey, TOKEN_PROGRAM_ID};
use crate::request::{
    plan_view, Invocation, Plan, PlanView, RentSource, Request, Seed, SignerSeeds, Store,
};
use crate::state::{MarketSettings, SETTINGS_LEN};
use crate::token::{token_account_len, TOKEN_ACCOUNT_LEN};
use vstd::prelude::*;

verus! {

/// The accounts that set a market up, by their roles, with what is read of
/// them.
#[derive(Clone, Copy, Debug, PartialEq, Eq)]
pub struct InitializeAccounts {
    /// The admin's address.
    pub admin: Pubkey,
    /// Whether the admin signed.
    pub admin_is_signer: bool,
    /// The address handed in as the settings account.
    pub market_settings: Pubkey,
    /// Whether nothing is stored there yet.
    pub settings_is_empty: bool,
    /// The address handed in as the market's token reserve.
    pub market_token: Pubkey,
    /// Whether nothing is stored there yet.
    pub token_is_empty: bool,
    /// The token type that the market is to trade.
    pub mint: Pubkey,
    /// The address handed in as the rent table.
    pub rent: Pubkey,
}

/// The two requests that make the token reserve at its derived address: the
/// account itself, for which the market signs with the reserve's seed, and its
/// set-up for the mint with the settings account as the one who may move the
/// tokens.
pub open spec fn spec_init_token_account(
    roles: InitializeAccounts,
    token_pubkey: Pubkey,
    bump_seed: u8,
) -> Seq<Invocation> {
    seq![
        Invocation {
            request: Request::CreateAccount {
                payer: roles.admin,
                new_account: token_pubkey,
                space: TOKEN_ACCOUNT_LEN as u64,
                owner: Pubkey(TOKEN_PROGRAM_ID),
                rent: RentSource::Account(roles.rent),
            },
            signer: Some(SignerSeeds { seed: Seed::Token, bump: bump_seed }),
        },
        Invocation {
            request: Request::InitializeTokenAccount {
                account: roles.market_token,
                mint: roles.mint,
                owner: roles.market_settings,
            },
            signer: None,
        },
    ]
}

/// Plans the making of the market's token reserve at `token_pubkey`, the
/// address derived with `bump_seed`. The rent is read in the account handed in
/// as the rent table.
pub fn init_token_account(
    roles: &InitializeAccounts,
    token_pubkey: Pubkey,
    bump_seed: u8,
) -> (invocations: Vec<Invocation>)
    ensures
        invocations@ == spec_init_token_account(*roles, token_pubkey, bump_seed),
{
    let space = token_account_len();
    let create = Invocation {
        request: Request::CreateAccount {
            payer: roles.admin,
            new_account: token_pubkey,
            space: space as u64,
            owner: token_program_id(),
            rent: RentSource::Account(roles.rent),
        },
        signer: Some(SignerSeeds { seed: Seed::Token, bump: bump_seed }),
    };
    let initialize = Invocation {
        request: Request::InitializeTokenAccount {
            account: roles.market_token,
            mint: roles.mint,
            owner: roles.market_settings,
        },
        signer: None,
    };
    vec![create, initialize]
}

/// The settings record of a new market: the admin who set it up, the prices
/// asked for, and the mint handed in.
pub open spec fn spec_first_record(
    roles: InitializeAccounts,
    settings: PriceArgs,
) -> MarketSettings {
    MarketSettings {
        admin: roles.admin,
        sell_price: settings.sell_price,
        buy_price: settings.buy_price,
        mint: roles.mint,
    }
}

/// The request that makes the settings account at its derived address, sized
/// for one record and owned by this program, and the record to keep in the
/// account handed in.
pub open spec fn spec_init_settings_account(
    roles: InitializeAccounts,
    settings: PriceArgs,
    settings_pubkey: Pubkey,
    bump_seed: u8,
) -> (Invocation, Store) {
    (
        Invocation {
            request: Request::CreateAccount {
                payer: roles.admin,
                new_account: settings_pubkey,
                space: SETTINGS_LEN as u64,
                owner: id(),
                rent: RentSource::Host,
            },
            signer: Some(SignerSeeds { seed: Seed::Settings, bump: bump_seed }),
        },
        Store { account: roles.market_settings, record: spec_first_record(roles, settings) },
    )
}

/// Plans the making of the settings account at `settings_pubkey`, the address
/// derived with `bump_seed`, and the keeping of the first record. The rent is
/// read in the host's own rent table.
pub fn init_settings_account(
    roles: &InitializeAccounts,
    settings: &PriceArgs,
    settings_pubkey: Pubkey,
    bump_seed: u8,
) -> (planned: (Invocation, Store))
    ensures
        planned == spec_init_settings_account(*roles, *settings, settings_pubkey, bump_seed),
{
    let market_settings = MarketSettings {
        admin: roles.admin,
        sell_price: settings.sell_price,
        buy_price: settings.buy_price,
        mint: roles.mint,
    };
    let space = market_settings.try_to_vec().len();
    let create = Invocation {
        request: Request::CreateAccount {
            payer: roles.admin,
            new_account: settings_pubkey,
            space: space as u64,
            owner: id(),
            rent: RentSource::Host,
        },
        signer: Some(SignerSeeds { seed: Seed::Settings, bump: bump_seed }),
    };
    (create, Store { account: roles.market_settings, record: market_settings })
}

impl InitializeAccounts {
    /// The roles as they are read from the accounts handed in: the admin, the
    /// settings account, the token reserve, the mint, the token program, the
    /// system program and the rent table, in this order.
    pub open spec fn spec_read(
        accounts: Seq<AccountInfo>,
    ) -> Result<InitializeAccounts, ProgramError> {
        if accounts.len() < 7 {
            Err(ProgramError::NotEnoughAccountKeys)
        } else {
            Ok(
                InitializeAccounts {
                    admin: accounts[0].key,
                    admin_is_signer: accounts[0].is_signer,
                    market_settings: accounts[1].key,
                    settings_is_empty: accounts[1].data_is_empty(),
                    market_token: accounts[2].key,
                    token_is_empty: accounts[2].data_is_empty(),
                    mint: accounts[3].key,
                    rent: accounts[6].key,
                },
            )
        }
    }

    /// Reads the roles from the accounts handed in.
    pub fn read(accounts: &[AccountInfo]) -> (outcome: Result<InitializeAccounts, ProgramError>)
        ensures
            outcome == InitializeAccounts::spec_read(accounts@),
    {
        if accounts.len() < 7 {
            return Err(ProgramError::NotEnoughAccountKeys);
        }
        Ok(
            InitializeAccounts {
                admin: accounts[0].key,
                admin_is_signer: accounts[0].is_signer,
                market_settings: accounts[1].key,
                settings_is_empty: accounts[1].data_is_empty(),
                market_token: accounts[2].key,
                token_is_empty: accounts[2].data_is_empty(),
                mint: accounts[3].key,
                rent: accounts[6].key,
            },
        )
    }

    /// What setting the market up comes to, given what the ledger derives for
    /// the token reserve and for the settings. The first of these decides:
    /// the admin did not sign; the settings account or the token reserve is
    /// in use; no address is derived for the reserve; the reserve handed in
    /// is not at its derived address; no address is derived for the
    /// settings. Else the plan makes the token reserve, then the settings
    /// account, and keeps the first record.
    pub open spec fn spec_initialize(
        self,
        settings: PriceArgs,
        expected_token: Option<(Pubkey, u8)>,
        expected_settings: Option<(Pubkey, u8)>,
    ) -> Result<PlanView, ProgramError> {
        if !self.admin_is_signer {
            Err(ProgramError::MissingRequiredSignature)
        } else if !self.settings_is_empty || !self.token_is_empty {
            Err(ProgramError::AccountAlreadyInitialized)
        } else {
            match expected_token {
                None => Err(ProgramError::InvalidSeeds),
                Some((token_pubkey, token_bump)) => if self.market_token != token_pubkey {
                    Err(MarketError::TokenPubkeyMismatch.reported())
                } else {
                    match expected_settings {
                        None => Err(ProgramError::InvalidSeeds),
                        Some((settings_pubkey, settings_bump)) => {
                            let planned = spec_init_settings_account(
                                self,
                                settings,
                                settings_pubkey,
                                settings_bump,
                            );
                            Ok(
                                PlanView {
                                    invocations: spec_init_token_account(
                                        self,
                                        token_pubkey,
                                        token_bump,
                                    ).push(planned.0),
                                    store: Some(planned.1),
                                },
                            )
                        },
                    }
                },
            }
        }
    }

    /// Checks the roles and plans the set-up, with `expected_token` and
    /// `expected_settings` as what the ledger derives for the token reserve
    /// and for the settings.
    pub fn initialize(
        &self,
        settings: PriceArgs,
        expected_token: Option<(Pubkey, u8)>,
        expected_settings: Option<(Pubkey, u8)>,
    ) -> (outcome: Result<Plan, ProgramError>)
        ensures
            plan_view(outcome) == self.spec_initialize(settings, expected_token, expected_settings),
    {
        if !self.admin_is_signer {
            return Err(ProgramError::MissingRequiredSignature);
        }
        if !self.settings_is_empty || !self.token_is_empty {
            return Err(ProgramError::AccountAlreadyInitialized);
        }
        let (token_pubkey, token_bump) = match expected_token {
            Some(found) => found,
            None => return Err(ProgramError::InvalidSeeds),
        };
        if self.market_token != token_pubkey {
            return Err(ProgramError::from(MarketError::TokenPubkeyMismatch));
        }
        let mut invocations = init_token_account(self, token_pubkey, token_bump);
        let (settings_pubkey, settings_bump) = match expected_settings {
            Some(found) => found,
            None => return Err(ProgramError::InvalidSeeds),
        };
        let (create, store) = init_settings_account(
            self,
            &settings,
            settings_pubkey,
            settings_bump,
        );
        invocations.push(create);
        Ok(Plan { invocations, store: Some(store) })
    }
}

/// What setting the market up comes to for the accounts handed in.
pub open spec fn spec_process_initialize_store(
    accounts: Seq<AccountInfo>,
    settings: PriceArgs,
) -> Result<PlanView, ProgramError> {
    match InitializeAccounts::spec_read(accounts) {
        Err(error) => Err(error),
        Ok(roles) => roles.spec_initialize(
            settings,
            MarketSettings::spec_token_pubkey_with_bump(),
            MarketSettings::spec_settings_pubkey_with_bump(),
        ),
    }
}

/// Processes the set-up of the market: reads the seven roles, checks them,
/// and plans the token reserve, the settings account and the first record.
pub fn process_initialize_store(
    accounts: &[AccountInfo],
    settings: PriceArgs,
) -> (outcome: Result<Plan, ProgramError>)
    ensures
        plan_view(outcome) == spec_process_initialize_store(accounts@, settings),
{
    let roles = match InitializeAccounts::read(accounts) {
        Ok(read) => read,
        Err(error) => return Err(error),
    };
    roles.initialize(
        settings,
        MarketSettings::token_pubkey_with_bump(),
        MarketSettings::settings_pubkey_with_bump(),
    )
}

/// A set-up is turned down as already initialized exactly where the admin
/// signed and the settings account or the token reserve is in use. What is
/// asked for and what the ledger derives have no part in it.
pub proof fn lemma_storage_in_use_fails(
    roles: InitializeAccounts,
    settings: PriceArgs,
    expected_token: Option<(Pubkey, u8)>,
    expected_settings: Option<(Pubkey, u8)>,
)
    ensures
        roles.spec_initialize(settings, expected_token, expected_settings) == Err::<
            PlanView,
            ProgramError,
        >(ProgramError::AccountAlreadyInitialized) <==> {
            &&& roles.admin_is_signer
            &&& !roles.settings_is_empty || !roles.token_is_empty
        },
{
}

/// Setting a market up twice fails the second time as already initialized,
/// whatever is asked for then: the first set-up keeps its record in the
/// settings account, and once it is kept there, every set-up with that
/// settings account, with seven accounts and a signing admin, is turned
/// down.
pub proof fn lemma_initialize_twice_fails(
    first: Seq<AccountInfo>,
    first_settings: PriceArgs,
    second: Seq<AccountInfo>,
    second_settings: PriceArgs,
)
    requires
        spec_process_initialize_store(first, first_settings) is Ok,
        second.len() >= 7,
        second[0].is_signer,
        second[1].key == first[1].key,
        second[1].data@ == spec_first_record(
            InitializeAccounts::spec_read(first)->Ok_0,
            first_settings,
        ).spec_to_vec(),
    ensures
        spec_process_initialize_store(first, first_settings)->Ok_0.store == Some(
            Store {
                account: second[1].key,
                record: spec_first_record(
                    InitializeAccounts::spec_read(first)->Ok_0,
                    first_settings,
                ),
            },
        ),
        spec_process_initialize_store(second, second_settings) == Err::<PlanView, ProgramError>(
            ProgramError::AccountAlreadyInitialized,
        ),
{
    let record = spec_first_record(InitializeAccounts::spec_read(first)->Ok_0, first_settings);
    MarketSettings::lemma_stored_form(record, record);
}

} // verus!
