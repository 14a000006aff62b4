use tokenmarket::account::{AccountMeta, Instruction};
use tokenmarket::pubkey::Pubkey;
use tokenmarket::request::{RentSource, Request};

fn key(first: u8) -> Pubkey {
    Pubkey::new_from_array([first; 32])
}

fn host(key: &Pubkey) -> solana_program::pubkey::Pubkey {
    solana_program::pubkey::Pubkey::new_from_array(key.to_bytes())
}

fn same(built: &Instruction, expected: &solana_program::instruction::Instruction) {
    assert_eq!(host(&built.program_id), expected.program_id);
    assert_eq!(built.accounts.len(), expected.accounts.len());
    for (mine, theirs) in built.accounts.iter().zip(expected.accounts.iter()) {
        assert_eq!(host(&mine.pubkey), theirs.pubkey);
        assert_eq!(mine.is_signer, theirs.is_signer);
        assert_eq!(mine.is_writable, theirs.is_writable);
    }
    assert_eq!(built.data, expected.data);
}

#[test]
fn currency_transfer_is_the_system_programs() {
    let request = Request::TransferCurrency { from: key(1), to: key(2), amount: 1000 };
    let built = request.instruction(77).unwrap();
    let expected =
        solana_program::system_instruction::transfer(&host(&key(1)), &host(&key(2)), 1000);
    same(&built, &expected);
    assert_eq!(built.program_id, Pubkey::new_from_array([0; 32]));
    assert_eq!(
        built.accounts,
        vec![
            AccountMeta { pubkey: key(1), is_signer: true, is_writable: true },
            AccountMeta { pubkey: key(2), is_signer: false, is_writable: true },
        ]
    );
    assert_eq!(built.data, vec![2, 0, 0, 0, 232, 3, 0, 0, 0, 0, 0, 0]);
    assert_eq!(request.accounts(), vec![key(1), key(2)]);
}

#[test]
fn account_creation_is_the_system_programs() {
    let request = Request::CreateAccount {
        payer: key(1),
        new_account: key(2),
        space: 165,
        owner: key(3),
        rent: RentSource::Host,
    };
    let built = request.instruction(2_039_280).unwrap();
    let expected = solana_program::system_instruction::create_account(
        &host(&key(1)),
        &host(&key(2)),
        2_039_280,
        165,
        &host(&key(3)),
    );
    same(&built, &expected);
    assert_eq!(
        built.accounts,
        vec![
            AccountMeta { pubkey: key(1), is_signer: true, is_writable: true },
            AccountMeta { pubkey: key(2), is_signer: true, is_writable: true },
        ]
    );
    assert_eq!(built.data.len(), 4 + 8 + 8 + 32);
    assert_eq!(&built.data[0..4], &[0, 0, 0, 0]);
    assert_eq!(&built.data[4..12], &2_039_280u64.to_le_bytes());
    assert_eq!(&built.data[12..20], &165u64.to_le_bytes());
    assert_eq!(&built.data[20..52], &[3u8; 32]);
    assert_eq!(request.accounts(), vec![key(1), key(2)]);
}

#[test]
fn account_creation_takes_the_rent_it_is_given() {
    let request = Request::CreateAccount {
        payer: key(1),
        new_account: key(2),
        space: 80,
        owner: key(3),
        rent: RentSource::Account(key(4)),
    };
    let cheap = request.instruction(1).unwrap();
    let dear = request.instruction(u64::MAX).unwrap();
    assert_eq!(&cheap.data[4..12], &1u64.to_le_bytes());
    assert_eq!(&dear.data[4..12], &u64::MAX.to_le_bytes());
}

#[test]
fn token_transfer_is_the_token_programs() {
    let request = Request::TransferTokens {
        source: key(1),
        destination: key(2),
        authority: key(3),
        amount: 10,
    };
    let built = request.instruction(0).unwrap();
    let expected = spl_token::instruction::transfer(
        &spl_token::id(),
        &host(&key(1)),
        &host(&key(2)),
        &host(&key(3)),
        &[&host(&key(3))],
        10,
    )
    .unwrap();
    same(&built, &expected);
    assert_eq!(host(&built.program_id), spl_token::id());
    assert_eq!(
        built.accounts,
        vec![
            AccountMeta { pubkey: key(1), is_signer: false, is_writable: true },
            AccountMeta { pubkey: key(2), is_signer: false, is_writable: true },
            AccountMeta { pubkey: key(3), is_signer: false, is_writable: false },
            AccountMeta { pubkey: key(3), is_signer: true, is_writable: false },
        ]
    );
    assert_eq!(built.data, vec![3, 10, 0, 0, 0, 0, 0, 0, 0]);
    assert_eq!(request.accounts(), vec![key(3), key(1), key(2)]);
}

#[test]
fn token_account_set_up_is_the_token_programs() {
    let request = Request::InitializeTokenAccount { account: key(1), mint: key(2), owner: key(3) };
    let built = request.instruction(0).unwrap();
    let expected = spl_token::instruction::initialize_account(
        &spl_token::id(),
        &host(&key(1)),
        &host(&key(2)),
        &host(&key(3)),
    )
    .unwrap();
    same(&built, &expected);
    let rent = Pubkey::new_from_array(solana_program::sysvar::rent::id().to_bytes());
    assert_eq!(
        built.accounts,
        vec![
            AccountMeta { pubkey: key(1), is_signer: false, is_writable: true },
            AccountMeta { pubkey: key(2), is_signer: false, is_writable: false },
            AccountMeta { pubkey: key(3), is_signer: false, is_writable: false },
            AccountMeta { pubkey: rent, is_signer: false, is_writable: false },
        ]
    );
    assert_eq!(built.data, vec![1]);
    assert_eq!(request.accounts(), vec![key(3), key(2), key(1), rent]);
}
