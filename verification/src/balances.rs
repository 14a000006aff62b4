//! What the two ledgers hold, and what a transfer does to it. This is the
//! market's reading of the ledgers, from which it is stated what a trade
//! moves; the ledgers themselves are not in this crate.

use crate::pubkey::Pubkey;
use crate::request::{Invocation, Request};
use vstd::prelude::*;

verus! {

/// The currency and the tokens held at each address.
pub struct Balances {
    pub currency: Map<Pubkey, int>,
    pub tokens: Map<Pubkey, int>,
}

impl Balances {
    /// The currency held at `address`; nothing where the ledger has no entry.
    pub open spec fn currency_of(self, address: Pubkey) -> int {
        if self.currency.dom().contains(address) {
            self.currency[address]
        } else {
            0
        }
    }

    /// The tokens held in the token account at `address`; nothing where the
    /// ledger has no entry.
    pub open spec fn tokens_of(self, address: Pubkey) -> int {
        if self.tokens.dom().contains(address) {
            self.tokens[address]
        } else {
            0
        }
    }

    /// The balances after `amount` of currency has gone from `from` to `to`.
    pub open spec fn move_currency(self, from: Pubkey, to: Pubkey, amount: int) -> Balances {
        let taken = Balances {
            currency: self.currency.insert(from, self.currency_of(from) - amount),
            tokens: self.tokens,
        };
        Balances {
            currency: taken.currency.insert(to, taken.currency_of(to) + amount),
            tokens: self.tokens,
        }
    }

    /// The balances after `amount` tokens have gone from `source` to
    /// `destination`.
    pub open spec fn move_tokens(
        self,
        source: Pubkey,
        destination: Pubkey,
        amount: int,
    ) -> Balances {
        let taken = Balances {
            currency: self.currency,
            tokens: self.tokens.insert(source, self.tokens_of(source) - amount),
        };
        Balances {
            currency: self.currency,
            tokens: taken.tokens.insert(destination, taken.tokens_of(destination) + amount),
        }
    }

    /// The balances after the ledger has granted a transfer. The requests
    /// that make an account are not followed here: what they cost is the
    /// rent table's to say.
    pub open spec fn after(self, request: Request) -> Balances {
        match request {
            Request::TransferCurrency { from, to, amount } => self.move_currency(
                from,
                to,
                amount as int,
            ),
            Request::TransferTokens { source, destination, authority: _, amount } => {
                self.move_tokens(source, destination, amount as int)
            },
            _ => self,
        }
    }

    /// The balances after the ledgers have granted every request of
    /// `invocations`, in their order.
    pub open spec fn after_all(self, invocations: Seq<Invocation>) -> Balances
        decreases invocations.len(),
    {
        if invocations.len() == 0 {
            self
        } else {
            self.after(invocations[0].request).after_all(
                invocations.subrange(1, invocations.len() as int),
            )
        }
    }
}

} // verus!
