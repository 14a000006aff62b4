use crate::pubkey::Pubkey;
use vstd::prelude::*;

verus! {

/// An account as an instruction sees it when it starts: where it is, whether
/// it signed, what currency it holds and what is stored in it.
#[derive(Clone, Debug, PartialEq, Eq)]
pub struct AccountInfo {
    pub key: Pubkey,
    pub is_signer: bool,
    pub lamports: u64,
    pub data: Vec<u8>,
}

impl AccountInfo {
    pub fn new(key: Pubkey, is_signer: bool, lamports: u64, data: Vec<u8>) -> (account: AccountInfo)
        ensures
            account.key == key,
            account.is_signer == is_signer,
            account.lamports == lamports,
            account.data == data,
    {
        AccountInfo { key, is_signer, lamports, data }
    }

    pub open spec fn spec_data_is_empty(&self) -> bool {
        self.data@.len() == 0
    }

    /// Whether nothing is stored in the account.
    #[verifier::when_used_as_spec(spec_data_is_empty)]
    pub fn data_is_empty(&self) -> (empty: bool)
        ensures
            empty == self.spec_data_is_empty(),
    {
        self.data.len() == 0
    }

    pub open spec fn spec_lamports(&self) -> u64 {
        self.lamports
    }

    /// The currency the account holds.
    #[verifier::when_used_as_spec(spec_lamports)]
    pub fn lamports(&self) -> (held: u64)
        ensures
            held == self.lamports,
    {
        self.lamports
    }
}

/// One account in an instruction's list, with what the instruction may do
/// with it.
#[derive(Clone, Copy, Debug, PartialEq, Eq)]
pub struct AccountMeta {
    pub pubkey: Pubkey,
    pub is_signer: bool,
    pub is_writable: bool,
}

impl AccountMeta {
    pub open spec fn spec_new(pubkey: Pubkey, is_signer: bool) -> AccountMeta {
        AccountMeta { pubkey, is_signer, is_writable: true }
    }

    /// An account that the instruction may change.
    #[verifier::when_used_as_spec(spec_new)]
    pub fn new(pubkey: Pubkey, is_signer: bool) -> (meta: AccountMeta)
        ensures
            meta == AccountMeta::spec_new(pubkey, is_signer),
    {
        AccountMeta { pubkey, is_signer, is_writable: true }
    }

    pub open spec fn spec_new_readonly(pubkey: Pubkey, is_signer: bool) -> AccountMeta {
        AccountMeta { pubkey, is_signer, is_writable: false }
    }

    /// An account that the instruction only reads.
    #[verifier::when_used_as_spec(spec_new_readonly)]
    pub fn new_readonly(pubkey: Pubkey, is_signer: bool) -> (meta: AccountMeta)
        ensures
            meta == AccountMeta::spec_new_readonly(pubkey, is_signer),
    {
        AccountMeta { pubkey, is_signer, is_writable: false }
    }
}

/// An instruction as it is put to a program: the program, the accounts in
/// their order, and the payload.
#[derive(Clone, Debug, PartialEq, Eq)]
pub struct Instruction {
    pub program_id: Pubkey,
    pub accounts: Vec<AccountMeta>,
    pub data: Vec<u8>,
}

/// What an [`Instruction`] holds, as mathematical values.
pub struct InstructionView {
    pub program_id: Pubkey,
    pub accounts: Seq<AccountMeta>,
    pub data: Seq<u8>,
}

impl View for Instruction {
    type V = InstructionView;

    open spec fn view(&self) -> InstructionView {
        InstructionView { program_id: self.program_id, accounts: self.accounts@, data: self.data@ }
    }
}

/// What an instruction that may be missing holds.
pub open spec fn instruction_view(instruction: Option<Instruction>) -> Option<InstructionView> {
    match instruction {
        Some(found) => Some(found@),
        None => None,
    }
}

} // verus!
