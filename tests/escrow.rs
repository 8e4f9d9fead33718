use escrow::instruction::EscrowInstruction;
use escrow::key::Key;
use escrow::processor::{Call, LedgerCommand, OpenAccounts, OperationAccounts, Processor, TradeAccounts};
use escrow::state::{EscrowError, EscrowRecord, RecordAccount, RECORD_LEN};
use solana_program::program_option::COption;
use solana_program::program_pack::Pack;
use solana_program::pubkey::Pubkey;
use spl_token::state::{Account, AccountState};

const RENT: u64 = 1_461_600;

fn key(b: u8) -> Key {
    Key::new([b; 32])
}

fn program() -> Key {
    key(200)
}

fn ledger() -> Key {
    Key::new(spl_token::id().to_bytes())
}

fn authority() -> (Key, u8) {
    let (p, b) = Pubkey::find_program_address(&[b"escrow"], &Pubkey::new_from_array(program().bytes));
    (Key::new(p.to_bytes()), b)
}

fn token_data(owner: Key, amount: u64) -> Vec<u8> {
    let acc = Account {
        mint: Pubkey::new_from_array([50; 32]),
        owner: Pubkey::new_from_array(owner.bytes),
        amount,
        delegate: COption::None,
        state: AccountState::Initialized,
        is_native: COption::None,
        delegated_amount: 0,
        close_authority: COption::None,
    };
    let mut v = vec![0u8; Account::LEN];
    Account::pack(acc, &mut v).unwrap();
    v
}

// initializer 1, custody 2, initializer's Y account 3, taker 4, taker's Y account 5, taker's X account 6
fn open_accounts() -> OpenAccounts {
    OpenAccounts {
        initializer: key(1),
        initializer_is_signer: true,
        custody_account: key(2),
        receive_account: key(3),
        receive_account_owner: ledger(),
        token_program: ledger(),
    }
}

fn trade_accounts() -> TradeAccounts {
    TradeAccounts {
        taker: key(4),
        taker_is_signer: true,
        taker_send_account: key(5),
        taker_receive_account: key(6),
        custody_account: key(2),
        initializer: key(1),
        initializer_receive_account: key(3),
        token_program: ledger(),
    }
}

fn fresh_record() -> RecordAccount {
    RecordAccount::from_parts(RENT, &vec![0u8; RECORD_LEN])
}

fn opened(amount: u64) -> RecordAccount {
    let mut rec = fresh_record();
    Processor::process_init_escrow(&open_accounts(), &mut rec, true, amount, &program()).unwrap();
    rec
}

fn settle(
    a: &TradeAccounts,
    custody: &Vec<u8>,
    taker: &Vec<u8>,
    rec: &mut RecordAccount,
    lamports: &mut u64,
    amount: u64,
) -> Result<Vec<Call>, EscrowError> {
    let calls = Processor::process_trade(a, custody, taker, rec, amount, &program())?;
    Processor::close_escrow(rec, lamports)?;
    Ok(calls)
}

fn commands(calls: &[Call]) -> Vec<LedgerCommand> {
    calls.iter().map(|c| c.command).collect()
}

#[test]
fn open_records_deal_and_hands_custody_to_authority() {
    let mut rec = fresh_record();
    let calls = Processor::process_init_escrow(&open_accounts(), &mut rec, true, 50, &program()).unwrap();
    let r = rec.data.unwrap();
    assert!(r.is_initialized);
    assert_eq!(r.initializer, key(1));
    assert_eq!(r.custody_account, key(2));
    assert_eq!(r.initializer_receive_account, key(3));
    assert_eq!(r.expected_amount, 50);
    assert_eq!(rec.lamports, RENT);
    let (pda, _) = authority();
    assert_ne!(pda, program());
    assert_eq!(
        commands(&calls),
        vec![LedgerCommand::SetOwner { account: key(2), new_owner: pda, owner: key(1) }]
    );
    assert_eq!(calls[0].authority_bump, None);
    assert_eq!(calls[0].instruction.program_id, spl_token::id());
    assert!(!calls[0].instruction.data.is_empty());
}

#[test]
fn open_on_initialized_record_fails_unchanged() {
    let mut rec = opened(50);
    let before = rec;
    let mut other = open_accounts();
    other.receive_account = key(9);
    let r = Processor::process_init_escrow(&other, &mut rec, true, 70, &program());
    assert_eq!(r.err(), Some(EscrowError::AlreadyInitialized));
    assert_eq!(rec, before);
}

#[test]
fn open_without_signature_fails_before_mutation() {
    let mut rec = fresh_record();
    let mut a = open_accounts();
    a.initializer_is_signer = false;
    let r = Processor::process_init_escrow(&a, &mut rec, true, 50, &program());
    assert_eq!(r.err(), Some(EscrowError::MissingSignature));
    assert_eq!(rec, fresh_record());
}

#[test]
fn open_rejects_receive_account_of_other_owner() {
    let mut rec = fresh_record();
    let mut a = open_accounts();
    a.receive_account_owner = key(8);
    let r = Processor::process_init_escrow(&a, &mut rec, true, 50, &program());
    assert_eq!(r.err(), Some(EscrowError::IncorrectProgramId));
    assert_eq!(rec, fresh_record());
}

#[test]
fn open_rejects_record_not_rent_exempt() {
    let mut rec = fresh_record();
    let r = Processor::process_init_escrow(&open_accounts(), &mut rec, false, 50, &program());
    assert_eq!(r.err(), Some(EscrowError::NotRentExempt));
}

#[test]
fn open_rejects_record_of_wrong_size() {
    let mut rec = RecordAccount::from_parts(RENT, &vec![0u8; 10]);
    let r = Processor::process_init_escrow(&open_accounts(), &mut rec, true, 50, &program());
    assert_eq!(r.err(), Some(EscrowError::InvalidAccountData));
}

#[test]
fn open_rejects_wrong_token_program() {
    let mut rec = fresh_record();
    let mut a = open_accounts();
    a.token_program = key(8);
    let r = Processor::process_init_escrow(&a, &mut rec, true, 50, &program());
    assert_eq!(r.err(), Some(EscrowError::IncorrectProgramId));
    assert_eq!(rec, fresh_record());
}

#[test]
fn open_accepts_zero_expected_amount() {
    let rec = opened(0);
    assert_eq!(rec.data.unwrap().expected_amount, 0);
    let mut rec = rec;
    let mut lamports = 10u64;
    let r = settle(&trade_accounts(), &token_data(authority().0, 100), &token_data(key(4), 0), &mut rec, &mut lamports, 100);
    assert!(r.is_ok());
}

#[test]
fn settle_example_hundred_x_for_fifty_y() {
    let mut rec = opened(50);
    let mut lamports = 5_000u64;
    let (pda, bump) = authority();
    let calls = settle(&trade_accounts(), &token_data(pda, 100), &token_data(key(4), 80), &mut rec, &mut lamports, 100)
        .unwrap();
    assert_eq!(
        commands(&calls),
        vec![
            LedgerCommand::Transfer { source: key(5), destination: key(3), authority: key(4), amount: 50 },
            LedgerCommand::Transfer { source: key(2), destination: key(6), authority: pda, amount: 100 },
            LedgerCommand::Close { account: key(2), destination: key(1), owner: pda },
        ]
    );
    assert_eq!(calls[0].authority_bump, None);
    assert_eq!(calls[1].authority_bump, Some(bump));
    assert_eq!(calls[2].authority_bump, Some(bump));
    assert_eq!(lamports, 5_000 + RENT);
    assert_eq!(rec.lamports, 0);
    assert_eq!(rec.data, None);
    assert!(rec.data_bytes().is_empty());
    assert!(calls.iter().all(|c| c.instruction.program_id == spl_token::id()));
}

fn settle_error(a: &TradeAccounts, custody: Vec<u8>, taker: Vec<u8>, amount: u64) -> EscrowError {
    let mut rec = opened(50);
    let before = rec;
    let mut lamports = 5_000u64;
    let r = settle(a, &custody, &taker, &mut rec, &mut lamports, amount);
    assert_eq!(rec, before);
    assert_eq!(lamports, 5_000);
    r.err().unwrap()
}

#[test]
fn settle_requires_taker_signature() {
    let mut a = trade_accounts();
    a.taker_is_signer = false;
    let e = settle_error(&a, token_data(authority().0, 100), token_data(key(4), 80), 100);
    assert_eq!(e, EscrowError::MissingSignature);
}

#[test]
fn settle_rejects_custody_amount_mismatch() {
    let e = settle_error(&trade_accounts(), token_data(authority().0, 99), token_data(key(4), 80), 100);
    assert_eq!(e, EscrowError::AmountMismatch);
}

#[test]
fn settle_rejects_taker_short_of_expected() {
    let e = settle_error(&trade_accounts(), token_data(authority().0, 100), token_data(key(4), 49), 100);
    assert_eq!(e, EscrowError::AmountMismatch);
}

#[test]
fn settle_rejects_wrong_initializer() {
    let mut a = trade_accounts();
    a.initializer = key(7);
    let e = settle_error(&a, token_data(authority().0, 100), token_data(key(4), 80), 100);
    assert_eq!(e, EscrowError::InvalidAccountData);
}

#[test]
fn settle_rejects_wrong_custody_account() {
    let mut a = trade_accounts();
    a.custody_account = key(7);
    let e = settle_error(&a, token_data(authority().0, 100), token_data(key(4), 80), 100);
    assert_eq!(e, EscrowError::InvalidAccountData);
}

#[test]
fn settle_rejects_wrong_receiving_account() {
    let mut a = trade_accounts();
    a.initializer_receive_account = key(7);
    let e = settle_error(&a, token_data(authority().0, 100), token_data(key(4), 80), 100);
    assert_eq!(e, EscrowError::InvalidAccountData);
}

#[test]
fn settle_rejects_undecodable_custody_data() {
    let e = settle_error(&trade_accounts(), vec![1, 2, 3], token_data(key(4), 80), 100);
    assert_eq!(e, EscrowError::InvalidAccountData);
}

#[test]
fn settle_rejects_wrong_token_program() {
    let mut a = trade_accounts();
    a.token_program = key(8);
    let e = settle_error(&a, token_data(authority().0, 100), token_data(key(4), 80), 100);
    assert_eq!(e, EscrowError::IncorrectProgramId);
}

#[test]
fn settle_refuses_lamport_overflow() {
    let mut rec = opened(50);
    let before = rec;
    let mut lamports = u64::MAX - 1;
    let r = settle(&trade_accounts(), &token_data(authority().0, 100), &token_data(key(4), 80), &mut rec, &mut lamports, 100);
    assert_eq!(r.err(), Some(EscrowError::Overflow));
    assert_eq!(rec, before);
    assert!(Processor::process_trade(&trade_accounts(), &token_data(authority().0, 100), &token_data(key(4), 80), &rec, 100, &program()).is_ok());
    assert_eq!(lamports, u64::MAX - 1);
}

#[test]
fn settle_on_uninitialized_record_fails() {
    let mut rec = fresh_record();
    let mut lamports = 0u64;
    let r = settle(&trade_accounts(), &token_data(authority().0, 100), &token_data(key(4), 80), &mut rec, &mut lamports, 100);
    assert_eq!(r.err(), Some(EscrowError::UninitializedAccount));
}

#[test]
fn settle_replay_fails() {
    let mut rec = opened(50);
    let mut lamports = 5_000u64;
    let args = (token_data(authority().0, 100), token_data(key(4), 80));
    settle(&trade_accounts(), &args.0, &args.1, &mut rec, &mut lamports, 100).unwrap();
    let after = rec;
    let again = settle(&trade_accounts(), &args.0, &args.1, &mut rec, &mut lamports, 100);
    assert_eq!(again.err(), Some(EscrowError::InvalidAccountData));
    assert_eq!(rec, after);
    assert_eq!(lamports, 5_000 + RENT);
    let closed = settle(&trade_accounts(), &Vec::new(), &args.1, &mut rec, &mut lamports, 100);
    assert_eq!(closed.err(), Some(EscrowError::InvalidAccountData));
}

#[test]
fn round_trip_conserves_balances() {
    // balances of X: custody, taker's X account; of Y: taker's Y account, initializer's Y account
    let (mut custody, mut taker_x, mut taker_y, mut init_y) = (100i128, 7i128, 80i128, 3i128);
    let total_x = custody + taker_x;
    let total_y = taker_y + init_y;
    let mut rec = opened(50);
    let mut lamports = 0u64;
    let calls = settle(&trade_accounts(), &token_data(authority().0, 100), &token_data(key(4), 80), &mut rec, &mut lamports, 100)
    .unwrap();
    for c in commands(&calls) {
        if let LedgerCommand::Transfer { source, destination, amount, .. } = c {
            let n = amount as i128;
            if source == key(5) && destination == key(3) {
                taker_y -= n;
                init_y += n;
            } else if source == key(2) && destination == key(6) {
                custody -= n;
                taker_x += n;
            } else {
                panic!("unexpected transfer");
            }
        }
    }
    assert_eq!(custody, 0);
    assert_eq!(custody + taker_x, total_x);
    assert_eq!(taker_y + init_y, total_y);
    assert_eq!((taker_x, taker_y, init_y), (107, 30, 53));
}

#[test]
fn instruction_decoding() {
    let mut open = vec![0u8];
    open.extend_from_slice(&100u64.to_le_bytes());
    assert_eq!(EscrowInstruction::unpack(&open), Ok(EscrowInstruction::InitEscrow { amount: 100 }));
    let mut settle = vec![1u8];
    settle.extend_from_slice(&0x0102_0304_0506_0708u64.to_le_bytes());
    settle.push(9);
    assert_eq!(
        EscrowInstruction::unpack(&settle),
        Ok(EscrowInstruction::Exchange { amount: 0x0102_0304_0506_0708 })
    );
    assert_eq!(EscrowInstruction::unpack(&[2, 0, 0, 0, 0, 0, 0, 0, 0]), Err(EscrowError::InvalidInstruction));
    assert_eq!(EscrowInstruction::unpack(&[0, 1, 2]), Err(EscrowError::InvalidInstruction));
    assert_eq!(EscrowInstruction::unpack(&[]), Err(EscrowError::InvalidInstruction));
}

#[test]
fn process_dispatches_on_tag() {
    let mut rec = fresh_record();
    let mut lamports = 1u64;
    let mut data = vec![0u8];
    data.extend_from_slice(&50u64.to_le_bytes());
    let ops = OperationAccounts::Open { accounts: open_accounts(), rent_exempt: true };
    Processor::process(&program(), &ops, &mut rec, &data).unwrap();
    assert_eq!(rec.data.unwrap().expected_amount, 50);
    let wrong = OperationAccounts::Trade {
        accounts: trade_accounts(),
        custody_data: token_data(authority().0, 100),
        taker_send_data: token_data(key(4), 80),
    };
    let before = rec;
    assert_eq!(
        Processor::process(&program(), &wrong, &mut rec, &data).err(),
        Some(EscrowError::InvalidInstruction)
    );
    assert_eq!(rec, before);
    let mut trade = vec![1u8];
    trade.extend_from_slice(&100u64.to_le_bytes());
    let calls = Processor::process(&program(), &wrong, &mut rec, &trade).unwrap();
    assert_eq!(calls.len(), 3);
    assert_eq!(rec, before);
    Processor::close_escrow(&mut rec, &mut lamports).unwrap();
    assert_eq!(lamports, 1 + RENT);
    assert_eq!(rec.data, None);
}

#[test]
fn record_codec_round_trip() {
    let r = EscrowRecord {
        is_initialized: true,
        initializer: key(1),
        custody_account: key(2),
        initializer_receive_account: key(3),
        expected_amount: 0xdead_beef_0102,
    };
    let bytes = r.pack();
    assert_eq!(bytes.len(), RECORD_LEN);
    assert_eq!(bytes[0], 1);
    assert_eq!(&bytes[97..], &0xdead_beef_0102u64.to_le_bytes());
    assert_eq!(EscrowRecord::unpack(&bytes), Some(r));
    let mut bad = bytes.clone();
    bad[0] = 2;
    assert_eq!(EscrowRecord::unpack(&bad), None);
    assert_eq!(EscrowRecord::unpack(&bytes[..104]), None);
    assert_eq!(EscrowRecord::unpack(&vec![0u8; RECORD_LEN]), Some(EscrowRecord::zeroed()));
    let acc = RecordAccount::from_parts(9, &bytes);
    assert_eq!(acc.data_bytes(), bytes);
}

#[test]
fn key_comparison() {
    assert!(key(1).same(&key(1)));
    let mut b = [1u8; 32];
    b[31] = 2;
    assert!(!key(1).same(&Key::new(b)));
}
