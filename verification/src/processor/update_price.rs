use crate::account::AccountInfo;
use crate::error::{MarketError, ProgramError};
use crate::instruction::PriceArgs;
use crate::pubkey::Pubkey;
use crate::request::Store;
use crate::state::MarketSettings;
use vstd::prelude::*;

verus! {

/// The accounts of a change of prices by their roles, with what is read of
/// them.
#[derive(Clone, Copy, Debug, PartialEq, Eq)]
pub struct UpdateAccounts {
    /// The address of the one who asks for the change.
    pub admin: Pubkey,
    /// Whether that one signed.
    pub admin_is_signer: bool,
    /// The address handed in as the settings account.
    pub market: Pubkey,
    /// The settings record kept there, if one is kept there.
    pub record: Option<MarketSettings>,
}

impl UpdateAccounts {
    /// The roles as they are read from the accounts handed in: the admin and
    /// the settings account, in this order.
    pub open spec fn spec_read(accounts: Seq<AccountInfo>) -> Result<UpdateAccounts, ProgramError> {
        if accounts.len() < 2 {
            Err(ProgramError::NotEnoughAccountKeys)
        } else {
            Ok(
                UpdateAccounts {
                    admin: accounts[0].key,
                    admin_is_signer: accounts[0].is_signer,
                    market: accounts[1].key,
                    record: MarketSettings::spec_try_from_slice(accounts[1].data@),
                },
            )
        }
    }

    /// Reads the roles from the accounts handed in.
    pub fn read(accounts: &[AccountInfo]) -> (outcome: Result<UpdateAccounts, ProgramError>)
        ensures
            outcome == UpdateAccounts::spec_read(accounts@),
    {
        if accounts.len() < 2 {
            return Err(ProgramError::NotEnoughAccountKeys);
        }
        Ok(
            UpdateAccounts {
                admin: accounts[0].key,
                admin_is_signer: accounts[0].is_signer,
                market: accounts[1].key,
                record: MarketSettings::try_from_slice(accounts[1].data.as_slice()),
            },
        )
    }

    /// What a change of prices comes to, given what the ledger derives for
    /// the settings. The first of these decides: the one who asks did not
    /// sign; no address is derived for the settings; the settings account
    /// handed in is not at its derived address; no record is kept there; the
    /// one who asks is not the admin of the record. Else the record is kept
    /// again with both prices replaced and nothing else changed.
    pub open spec fn spec_update(
        self,
        settings: PriceArgs,
        expected_settings: Option<(Pubkey, u8)>,
    ) -> Result<Store, ProgramError> {
        if !self.admin_is_signer {
            Err(ProgramError::MissingRequiredSignature)
        } else {
            match expected_settings {
                None => Err(ProgramError::InvalidSeeds),
                Some((settings_pubkey, _)) => if self.market != settings_pubkey {
                    Err(MarketError::SettingsPubkeyMismatch.reported())
                } else {
                    match self.record {
                        None => Err(ProgramError::BorshIoError),
                        Some(kept) => if kept.admin != self.admin {
                            Err(ProgramError::IllegalOwner)
                        } else {
                            Ok(
                                Store {
                                    account: self.market,
                                    record: MarketSettings {
                                        admin: kept.admin,
                                        sell_price: settings.sell_price,
                                        buy_price: settings.buy_price,
                                        mint: kept.mint,
                                    },
                                },
                            )
                        },
                    }
                },
            }
        }
    }

    /// Checks the roles and plans the change, with `expected_settings` as
    /// what the ledger derives for the settings.
    pub fn update(
        &self,
        settings: PriceArgs,
        expected_settings: Option<(Pubkey, u8)>,
    ) -> (outcome: Result<Store, ProgramError>)
        ensures
            outcome == self.spec_update(settings, expected_settings),
    {
        if !self.admin_is_signer {
            return Err(ProgramError::MissingRequiredSignature);
        }
        let expected_settings_pubkey = match expected_settings {
            Some(found) => found.0,
            None => return Err(ProgramError::InvalidSeeds),
        };
        if self.market != expected_settings_pubkey {
            return Err(ProgramError::from(MarketError::SettingsPubkeyMismatch));
        }
        let mut market_settings = match self.record {
            Some(kept) => kept,
            None => return Err(ProgramError::BorshIoError),
        };
        if market_settings.admin != self.admin {
            return Err(ProgramError::IllegalOwner);
        }
        market_settings.sell_price = settings.sell_price;
        market_settings.buy_price = settings.buy_price;
        Ok(Store { account: self.market, record: market_settings })
    }
}

/// What a change of prices comes to for the accounts handed in.
pub open spec fn spec_process_update_price(
    accounts: Seq<AccountInfo>,
    settings: PriceArgs,
) -> Result<Store, ProgramError> {
    match UpdateAccounts::spec_read(accounts) {
        Err(error) => Err(error),
        Ok(roles) => roles.spec_update(settings, MarketSettings::spec_settings_pubkey_with_bump()),
    }
}

/// Processes a change of prices: reads the two roles, checks them, and gives
/// the record to keep.
pub fn process_update_price(
    accounts: &[AccountInfo],
    settings: PriceArgs,
) -> (outcome: Result<Store, ProgramError>)
    ensures
        outcome == spec_process_update_price(accounts@, settings),
{
    let roles = match UpdateAccounts::read(accounts) {
        Ok(read) => read,
        Err(error) => return Err(error),
    };
    roles.update(settings, MarketSettings::settings_pubkey_with_bump())
}

/// A change of prices is turned down as unauthorized exactly where the one
/// who asks is not the admin of the record and the checks before it hold:
/// the one who asks signed, and the settings account is at its derived
/// address and holds a record.
pub proof fn lemma_stranger_is_unauthorized(
    roles: UpdateAccounts,
    settings: PriceArgs,
    expected_settings: Option<(Pubkey, u8)>,
)
    ensures
        roles.spec_update(settings, expected_settings) == Err::<Store, ProgramError>(
            ProgramError::IllegalOwner,
        ) <==> {
            &&& roles.admin_is_signer
            &&& expected_settings matches Some((address, _)) && roles.market == address
            &&& roles.record matches Some(kept) && kept.admin != roles.admin
        },
{
}

/// A change of prices goes on exactly where the admin of the record asks for
/// it with a signature and the settings account is at its derived address.
/// It replaces both prices and nothing else: the admin and the mint stay,
/// and the record goes back where it was kept. What is stored then reads
/// back as that record.
pub proof fn lemma_admin_replaces_prices_only(
    roles: UpdateAccounts,
    settings: PriceArgs,
    expected_settings: Option<(Pubkey, u8)>,
)
    ensures
        roles.spec_update(settings, expected_settings) is Ok <==> {
            &&& roles.admin_is_signer
            &&& expected_settings matches Some((address, _)) && roles.market == address
            &&& roles.record matches Some(kept) && kept.admin == roles.admin
        },
        roles.spec_update(settings, expected_settings) matches Ok(store) ==> {
            &&& store.account == roles.market
            &&& store.record.sell_price == settings.sell_price
            &&& store.record.buy_price == settings.buy_price
            &&& store.record.admin == roles.record->0.admin
            &&& store.record.mint == roles.record->0.mint
            &&& MarketSettings::spec_try_from_slice(store.record.spec_to_vec()) == Some(
                store.record,
            )
        },
{
    if roles.spec_update(settings, expected_settings) is Ok {
        let store = roles.spec_update(settings, expected_settings)->Ok_0;
        MarketSettings::lemma_round_trip(store.record);
    }
}

} // verus!
