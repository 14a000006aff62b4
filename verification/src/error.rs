use vstd::prelude::*;
use vstd::std_specs::convert::FromSpecImpl;

verus! {

/// The failures that are this market's own. The host ledger reports each one
/// as a custom failure under its code.
#[derive(Clone, Copy, Debug, PartialEq, Eq, Structural)]
pub enum MarketError {
    /// The token reserve handed in does not sit at the derived reserve address.
    TokenPubkeyMismatch,
    /// The settings account handed in does not sit at the derived settings address.
    SettingsPubkeyMismatch,
    /// The client is the market's own settings authority.
    SelfTransaction,
    /// Price times amount does not fit the currency's value type.
    TooManyLamports,
    /// The client's token account holds another token type than the reserve.
    UnsupportedMint,
}

impl MarketError {
    /// The number under which the host ledger reports this failure.
    pub open spec fn spec_code(self) -> u32 {
        match self {
            MarketError::TokenPubkeyMismatch => 0,
            MarketError::SettingsPubkeyMismatch => 1,
            MarketError::SelfTransaction => 2,
            MarketError::TooManyLamports => 3,
            MarketError::UnsupportedMint => 4,
        }
    }

    #[verifier::when_used_as_spec(spec_code)]
    pub fn code(self) -> (c: u32)
        ensures
            c == self.spec_code(),
    {
        match self {
            MarketError::TokenPubkeyMismatch => 0,
            MarketError::SettingsPubkeyMismatch => 1,
            MarketError::SelfTransaction => 2,
            MarketError::TooManyLamports => 3,
            MarketError::UnsupportedMint => 4,
        }
    }

    /// The failure that is reported under `code`, if there is one.
    pub fn from_code(code: u32) -> (e: Option<MarketError>)
        ensures
            match e {
                Some(found) => found.spec_code() == code,
                None => code > 4,
            },
    {
        if code == 0 {
            Some(MarketError::TokenPubkeyMismatch)
        } else if code == 1 {
            Some(MarketError::SettingsPubkeyMismatch)
        } else if code == 2 {
            Some(MarketError::SelfTransaction)
        } else if code == 3 {
            Some(MarketError::TooManyLamports)
        } else if code == 4 {
            Some(MarketError::UnsupportedMint)
        } else {
            None
        }
    }

    /// The sentence shown to a person for this failure.
    pub open spec fn spec_message(self) -> Seq<char> {
        match self {
            MarketError::TokenPubkeyMismatch => "The pubkey of the token is different from PDA"@,
            MarketError::SettingsPubkeyMismatch =>
                "The pubkey of the market's settings is different from PDA"@,
            MarketError::SelfTransaction => "Market cannot buy from or sell to itself"@,
            MarketError::TooManyLamports => "The limit of possible lamports has been exceeded"@,
            MarketError::UnsupportedMint => "The market doesn't support the mint"@,
        }
    }

    pub fn message(self) -> (text: &'static str)
        ensures
            text@ == self.spec_message(),
    {
        match self {
            MarketError::TokenPubkeyMismatch => "The pubkey of the token is different from PDA",
            MarketError::SettingsPubkeyMismatch =>
                "The pubkey of the market's settings is different from PDA",
            MarketError::SelfTransaction => "Market cannot buy from or sell to itself",
            MarketError::TooManyLamports => "The limit of possible lamports has been exceeded",
            MarketError::UnsupportedMint => "The market doesn't support the mint",
        }
    }

    /// The name of this family of failures.
    pub fn type_of() -> (name: &'static str)
        ensures
            name@ == "Store Error"@,
    {
        "Store Error"
    }
}

/// Why an instruction was turned down, in the kinds of failure that the host
/// ledger knows. A failure is final: nothing is tried again, and nothing of
/// the instruction stays.
#[derive(Clone, Copy, Debug, PartialEq, Eq, Structural)]
pub enum ProgramError {
    /// One of the market's own failures, by its code: a mismatched address,
    /// a trade of the market with itself, a price beyond the value limit, or
    /// an unsupported token type.
    Custom(u32),
    /// An invalid amount: no token is asked for. Also a token account that
    /// is not the client's.
    InvalidArgument,
    /// The data of a token account is not a token account.
    InvalidAccountData,
    /// The paying side holds less currency than is owed.
    InsufficientFunds,
    /// A signature is missing: the account that has to sign did not.
    MissingRequiredSignature,
    /// The market is initialized already: its storage is in use.
    AccountAlreadyInitialized,
    /// A token account was never set up.
    UninitializedAccount,
    /// Fewer accounts were handed in than the instruction has roles.
    NotEnoughAccountKeys,
    /// The ledger derives no address from a seed.
    InvalidSeeds,
    /// A decode failure: a payload or a stored record does not have its
    /// layout.
    BorshIoError,
    /// The signer is not authorized: it is not the admin of the market.
    IllegalOwner,
}

impl MarketError {
    /// The failure as the program reports it to the host.
    pub open spec fn reported(self) -> ProgramError {
        ProgramError::Custom(self.spec_code())
    }
}

impl From<MarketError> for ProgramError {
    fn from(error: MarketError) -> (e: ProgramError) {
        ProgramError::Custom(error.code())
    }
}

impl FromSpecImpl<MarketError> for ProgramError {
    open spec fn obeys_from_spec() -> bool {
        true
    }

    open spec fn from_spec(error: MarketError) -> ProgramError {
        error.reported()
    }
}

} // verus!
