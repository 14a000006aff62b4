use crate::id;
use crate::pubkey::{derived_address, find_program_address, Pubkey};
use crate::wire::{append, append_u64, le_bytes, lemma_le_bytes, read_pubkey, read_u64};
use vstd::prelude::*;
use vstd::string::StringSliceAdditionalSpecFns;

verus! {

/// The seed of the address where the settings record is kept.
pub const SETTINGS_SEED: &'static str = "settings_seed";

/// The seed of the address of the market's token reserve.
pub const TOKEN_SEED: &'static str = "token_seed";

/// The seed of the address of the market's currency reserve.
pub const LAMPORTS_SEED: &'static str = "lamports_seed";

/// The market's configuration: who may change the prices, the two prices in
/// currency per token, and the one token type that is traded.
#[derive(Clone, Copy, Debug, PartialEq, Eq)]
pub struct MarketSettings {
    pub admin: Pubkey,
    pub sell_price: u64,
    pub buy_price: u64,
    pub mint: Pubkey,
}

/// The number of bytes of a stored settings record.
pub const SETTINGS_LEN: usize = 80;

impl MarketSettings {
    /// The stored form of the record: the admin's address, the sell price and
    /// the buy price with their lowest byte first, and the mint's address.
    pub open spec fn spec_to_vec(self) -> Seq<u8> {
        self.admin@ + le_bytes(self.sell_price) + le_bytes(self.buy_price) + self.mint@
    }

    /// The record that is stored as `data`, where `data` has the length of a
    /// record. No two records are stored alike, so there is only one.
    pub open spec fn spec_try_from_slice(data: Seq<u8>) -> Option<MarketSettings> {
        if data.len() == SETTINGS_LEN {
            Some(choose|record: MarketSettings| record.spec_to_vec() == data)
        } else {
            None
        }
    }

    /// A stored record has eighty bytes, and two records that are stored
    /// alike are the same record.
    pub proof fn lemma_stored_form(a: MarketSettings, b: MarketSettings)
        ensures
            a.spec_to_vec().len() == SETTINGS_LEN,
            a.spec_to_vec() == b.spec_to_vec() ==> a == b,
    {
        lemma_le_bytes(a.sell_price, b.sell_price);
        lemma_le_bytes(a.buy_price, b.buy_price);
        lemma_le_bytes(b.sell_price, a.sell_price);
        lemma_le_bytes(b.buy_price, a.buy_price);
        let x = a.spec_to_vec();
        let y = b.spec_to_vec();
        if x == y {
            assert(a.admin@ == x.subrange(0, 32));
            assert(b.admin@ == y.subrange(0, 32));
            assert(le_bytes(b.sell_price) == y.subrange(32, 40));
            assert(le_bytes(b.buy_price) == y.subrange(40, 48));
            assert(a.mint@ == x.subrange(48, 80));
            assert(b.mint@ == y.subrange(48, 80));
            Pubkey::lemma_view_injective(a.admin, b.admin);
            Pubkey::lemma_view_injective(a.mint, b.mint);
        }
    }

    /// Reading back what was stored gives the record that was stored.
    pub proof fn lemma_round_trip(record: MarketSettings)
        ensures
            MarketSettings::spec_try_from_slice(record.spec_to_vec()) == Some(record),
    {
        MarketSettings::lemma_stored_form(record, record);
        let found = choose|other: MarketSettings| other.spec_to_vec() == record.spec_to_vec();
        MarketSettings::lemma_stored_form(found, record);
    }

    /// The record in its stored form.
    pub fn try_to_vec(&self) -> (data: Vec<u8>)
        ensures
            data@ == self.spec_to_vec(),
            data@.len() == SETTINGS_LEN,
    {
        let mut data: Vec<u8> = Vec::new();
        append(&mut data, self.admin.0.as_slice());
        append_u64(&mut data, self.sell_price);
        append_u64(&mut data, self.buy_price);
        append(&mut data, self.mint.0.as_slice());
        proof {
            MarketSettings::lemma_stored_form(*self, *self);
        }
        data
    }

    /// Reads a stored record. It is there exactly where `data` has the length
    /// of a record.
    pub fn try_from_slice(data: &[u8]) -> (record: Option<MarketSettings>)
        ensures
            record == MarketSettings::spec_try_from_slice(data@),
            record is Some <==> data@.len() == SETTINGS_LEN,
            record matches Some(r) ==> r.spec_to_vec() == data@,
    {
        if data.len() != SETTINGS_LEN {
            return None;
        }
        let record = MarketSettings {
            admin: read_pubkey(data, 0),
            sell_price: read_u64(data, 32),
            buy_price: read_u64(data, 40),
            mint: read_pubkey(data, 48),
        };
        proof {
            assert(record.spec_to_vec() =~= data@);
            let found = choose|other: MarketSettings| other.spec_to_vec() == data@;
            MarketSettings::lemma_stored_form(found, record);
        }
        Some(record)
    }

    pub open spec fn spec_settings_pubkey_with_bump() -> Option<(Pubkey, u8)> {
        derived_address(SETTINGS_SEED.spec_bytes(), id())
    }

    /// The address where the settings record is kept, with its discriminant;
    /// `None` where the ledger derives none.
    #[verifier::when_used_as_spec(spec_settings_pubkey_with_bump)]
    pub fn settings_pubkey_with_bump() -> (found: Option<(Pubkey, u8)>)
        ensures
            found == MarketSettings::spec_settings_pubkey_with_bump(),
    {
        find_program_address(SETTINGS_SEED.as_bytes(), &id())
    }

    pub open spec fn spec_token_pubkey_with_bump() -> Option<(Pubkey, u8)> {
        derived_address(TOKEN_SEED.spec_bytes(), id())
    }

    /// The address of the market's token reserve, with its discriminant;
    /// `None` where the ledger derives none.
    #[verifier::when_used_as_spec(spec_token_pubkey_with_bump)]
    pub fn token_pubkey_with_bump() -> (found: Option<(Pubkey, u8)>)
        ensures
            found == MarketSettings::spec_token_pubkey_with_bump(),
    {
        find_program_address(TOKEN_SEED.as_bytes(), &id())
    }

    pub open spec fn spec_lamports_account_pubkey() -> Option<(Pubkey, u8)> {
        derived_address(LAMPORTS_SEED.spec_bytes(), id())
    }

    /// The address of the market's currency reserve, with its discriminant;
    /// `None` where the ledger derives none.
    #[verifier::when_used_as_spec(spec_lamports_account_pubkey)]
    pub fn lamports_account_pubkey() -> (found: Option<(Pubkey, u8)>)
        ensures
            found == MarketSettings::spec_lamports_account_pubkey(),
    {
        find_program_address(LAMPORTS_SEED.as_bytes(), &id())
    }
}

} // verus!
