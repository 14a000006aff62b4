//! A fixed-price two-way market between a ledger's native currency and one
//! token type, as a verified instruction processor.
//!
//! One admin sets the market up with a sell price and a buy price. Clients
//! then buy tokens out of the market's reserve at the buy price and sell
//! tokens into it at the sell price. The market holds no keys: its settings
//! account, its token reserve and its currency reserve sit at addresses that
//! the ledger derives from three fixed seeds, and the market signs for them
//! with the discriminants found with the addresses.
//!
//! The processor changes nothing itself. It reads the accounts handed in,
//! checks every role, and gives back a [`request::Plan`]: the requests to the
//! currency ledger and to the token ledger in their order, and the settings
//! record to keep. The host applies the whole plan or nothing of it. Every
//! check comes before the plan, so a failure leaves nothing behind.
//!
//! - [`pubkey`], [`account`]: addresses, accounts and instructions as plain
//!   values.
//! - [`state`], [`instruction`], [`wire`]: the settings record and the four
//!   instructions, with their stored forms.
//! - [`token`], [`request`]: what is read of a token account, and what is
//!   asked of the ledgers.
//! - [`processor`]: the four operations and the dispatcher.
//! - [`balances`]: what a granted trade does to what the ledgers hold.
//! - [`error`]: the failures.
//!
//! What the ledger's own code computes is taken from it and not proved: the
//! derived addresses, the reading of a token account, and the instructions
//! for the ledger programs. Each such call stands in one function whose
//! comment says what is taken on trust.

use crate::pubkey::Pubkey;
use vstd::prelude::*;

pub mod account;
pub mod balances;
pub mod error;
pub mod instruction;
pub mod processor;
pub mod pubkey;
pub mod request;
pub mod state;
pub mod token;
pub mod wire;

verus! {

/// The bytes of this program's address,
/// `HpPcfd4wrNVpHVL2tXv37kWo2dXG3gLcazyU1xLha3bh` in base 58.
pub const ID: [u8; 32] = [
    249, 222, 220, 16, 184, 153, 239, 143, 62, 211, 8, 64, 7, 27, 251, 78,
    99, 139, 205, 216, 4, 0, 230, 145, 211, 67, 192, 164, 151, 187, 197, 108,
];

pub open spec fn spec_id() -> Pubkey {
    Pubkey(ID)
}

/// This program's address.
#[verifier::when_used_as_spec(spec_id)]
pub fn id() -> (key: Pubkey)
    ensures
        key == Pubkey(ID),
{
    Pubkey(ID)
}

} // verus!
