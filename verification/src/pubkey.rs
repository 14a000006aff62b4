use vstd::prelude::*;
use vstd::std_specs::cmp::PartialEqSpecImpl;

verus! {

/// An address on the ledger: thirty-two bytes.
#[derive(Clone, Copy, Debug, Eq)]
pub struct Pubkey(pub [u8; 32]);

impl View for Pubkey {
    type V = Seq<u8>;

    open spec fn view(&self) -> Seq<u8> {
        self.0@
    }
}

impl PartialEq for Pubkey {
    fn eq(&self, other: &Pubkey) -> (r: bool) {
        let mut i: usize = 0;
        while i < 32
            invariant
                i <= 32,
                forall|j: int| 0 <= j < i ==> self.0[j] == other.0[j],
            decreases 32 - i,
        {
            if self.0[i] != other.0[i] {
                return false;
            }
            i += 1;
        }
        assert(self.0 =~= other.0);
        true
    }
}

impl PartialEqSpecImpl for Pubkey {
    open spec fn obeys_eq_spec() -> bool {
        true
    }

    open spec fn eq_spec(&self, other: &Pubkey) -> bool {
        *self == *other
    }
}

/// The bytes of the system program's address.
pub const SYSTEM_PROGRAM_ID: [u8; 32] = [
    0, 0, 0, 0, 0, 0, 0, 0, 0, 0, 0, 0, 0, 0, 0, 0,
    0, 0, 0, 0, 0, 0, 0, 0, 0, 0, 0, 0, 0, 0, 0, 0,
];

/// The bytes of the token program's address,
/// `TokenkegQfeZyiNwAJbNbGKPFXCWuBvf9Ss623VQ5DA` in base 58.
pub const TOKEN_PROGRAM_ID: [u8; 32] = [
    6, 221, 246, 225, 215, 101, 161, 147, 217, 203, 225, 70, 206, 235, 121, 172,
    28, 180, 133, 237, 95, 91, 55, 145, 58, 140, 245, 133, 126, 255, 0, 169,
];

/// The bytes of the address of the rent table,
/// `SysvarRent111111111111111111111111111111111` in base 58.
pub const RENT_SYSVAR_ID: [u8; 32] = [
    6, 167, 213, 23, 25, 44, 92, 81, 33, 140, 201, 76, 61, 74, 241, 127,
    88, 218, 238, 8, 155, 161, 253, 68, 227, 219, 217, 138, 0, 0, 0, 0,
];

impl Pubkey {
    pub fn new_from_array(bytes: [u8; 32]) -> (key: Pubkey)
        ensures
            key.0 == bytes,
    {
        Pubkey(bytes)
    }

    pub fn to_bytes(self) -> (bytes: [u8; 32])
        ensures
            bytes == self.0,
    {
        self.0
    }

    /// Two addresses with the same bytes are the same address.
    pub proof fn lemma_view_injective(a: Pubkey, b: Pubkey)
        requires
            a@ == b@,
        ensures
            a == b,
    {
        assert(a.0 =~= b.0);
    }
}

/// The address and discriminant that the ledger derives for a program from one
/// seed, or `None` where it finds no discriminant that gives an address
/// without a private key.
pub uninterp spec fn derived_address(seed: Seq<u8>, program_id: Pubkey) -> Option<(Pubkey, u8)>;

/// Calls `solana_program::pubkey::Pubkey::try_find_program_address` with the
/// one seed. Nothing is proved of it: the contract gives the outcome a name,
/// which holds because the search is a function of the seed and the program's
/// address alone.
#[verifier::external_body]
pub(crate) fn find_program_address(seed: &[u8], program_id: &Pubkey) -> (found: Option<
    (Pubkey, u8),
>)
    ensures
        found == derived_address(seed@, *program_id),
{
    let program = solana_program::pubkey::Pubkey::new_from_array(program_id.0);
    match solana_program::pubkey::Pubkey::try_find_program_address(&[seed], &program) {
        Some((address, bump)) => Some((Pubkey(address.to_bytes()), bump)),
        None => None,
    }
}

/// Calls `solana_program::system_program::id`. The contract writes out the
/// thirty-two zero bytes that the name `11111111111111111111111111111111`
/// stands for in base 58.
#[verifier::external_body]
pub(crate) fn system_program_id() -> (key: Pubkey)
    ensures
        key == Pubkey(SYSTEM_PROGRAM_ID),
{
    Pubkey(solana_program::system_program::id().to_bytes())
}

/// Calls `spl_token::id`. The contract writes out the bytes that the name
/// `TokenkegQfeZyiNwAJbNbGKPFXCWuBvf9Ss623VQ5DA` stands for in base 58.
#[verifier::external_body]
pub(crate) fn token_program_id() -> (key: Pubkey)
    ensures
        key == Pubkey(TOKEN_PROGRAM_ID),
{
    Pubkey(spl_token::id().to_bytes())
}

/// Calls `solana_program::sysvar::rent::id`. The contract writes out the bytes
/// that the name `SysvarRent111111111111111111111111111111111` stands for in
/// base 58.
#[verifier::external_body]
pub(crate) fn rent_sysvar_id() -> (key: Pubkey)
    ensures
        key == Pubkey(RENT_SYSVAR_ID),
{
    Pubkey(solana_program::sysvar::rent::id().to_bytes())
}

} // verus!
