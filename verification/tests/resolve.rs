use escrow::error::EscrowError;
use escrow::processor::EscrowProcessor;
use escrow::state::AccountState;
use escrow::state::Escrow;

fn resolve_account(key: u64, is_signer: bool, lamports: u64) -> AccountState {
    AccountState {
        key,
        is_signer,
        lamports,
    }
}

/// The five accounts of an outcome-resolution call, in their fixed order:
/// signer, party A, party B, receiver, escrow record. The signer's key
/// matches the resolver recorded by `initialized_record`.
fn resolve_accounts() -> Vec<AccountState> {
    vec![
        resolve_account(10, true, 5),
        resolve_account(11, false, 4_000),
        resolve_account(12, false, 5_000),
        resolve_account(13, false, 2_070),
        resolve_account(14, false, 900),
    ]
}

/// A record as a successful initialization with a pledge of 1_000 leaves
/// it: receiver 13 designated, resolver 10 authorized.
fn initialized_record() -> Escrow {
    Escrow {
        is_initialized: true,
        is_resolved: false,
        initializer_pubkey: 13,
        authorized_resolver: 10,
        expected_amount: 1_000,
    }
}

#[test]
fn player_a_wins_pays_the_recorded_amount() {
    let mut accounts = resolve_accounts();
    let mut record = initialized_record();
    let r = EscrowProcessor::process_player_a_wins(&mut accounts, &mut record, 1_000);
    assert_eq!(r, Ok(()));
    assert_eq!(accounts[1].lamports, 3_000);
    assert_eq!(accounts[3].lamports, 3_070);
    // The non-winning party's balance is untouched.
    assert_eq!(accounts[2].lamports, 5_000);
    assert_eq!(accounts[0].lamports, 5);
    assert_eq!(accounts[4].lamports, 900);
    assert!(record.is_resolved);
    assert_eq!(record.expected_amount, 1_000);
}

#[test]
fn player_b_wins_pays_the_recorded_amount() {
    let mut accounts = resolve_accounts();
    let mut record = initialized_record();
    let r = EscrowProcessor::process_player_b_wins(&mut accounts, &mut record, 1_000);
    assert_eq!(r, Ok(()));
    assert_eq!(accounts[2].lamports, 4_000);
    assert_eq!(accounts[3].lamports, 3_070);
    assert_eq!(accounts[1].lamports, 4_000);
    assert!(record.is_resolved);
}

#[test]
fn resolution_requires_signature() {
    let mut accounts = resolve_accounts();
    accounts[0].is_signer = false;
    let before = accounts.clone();
    let mut record = initialized_record();
    let r = EscrowProcessor::process_player_a_wins(&mut accounts, &mut record, 1_000);
    assert_eq!(r, Err(EscrowError::MissingRequiredSignature));
    assert_eq!(accounts, before);
    assert_eq!(record, initialized_record());
}

#[test]
fn resolution_requires_the_authorized_resolver() {
    let mut accounts = resolve_accounts();
    accounts[0].key = 99;
    let before = accounts.clone();
    let mut record = initialized_record();
    let r = EscrowProcessor::process_player_a_wins(&mut accounts, &mut record, 1_000);
    assert_eq!(r, Err(EscrowError::MissingRequiredSignature));
    assert_eq!(accounts, before);
    assert_eq!(record, initialized_record());
}

#[test]
fn resolution_against_uninitialized_record_moves_nothing() {
    let mut accounts = resolve_accounts();
    let before = accounts.clone();
    let mut record = Escrow {
        is_initialized: false,
        is_resolved: false,
        initializer_pubkey: 0,
        authorized_resolver: 0,
        expected_amount: 0,
    };
    let r = EscrowProcessor::process_player_b_wins(&mut accounts, &mut record, 1_000);
    assert_eq!(r, Err(EscrowError::UninitializedAccount));
    assert_eq!(accounts, before);
    assert!(!record.is_initialized);
}

#[test]
fn resolution_fires_at_most_once() {
    let mut accounts = resolve_accounts();
    let mut record = initialized_record();
    assert_eq!(
        EscrowProcessor::process_player_a_wins(&mut accounts, &mut record, 1_000),
        Ok(())
    );
    let after_first = accounts.clone();
    // A second resolution against the same record must not double-pay,
    // whichever role it names.
    let r = EscrowProcessor::process_player_a_wins(&mut accounts, &mut record, 1_000);
    assert_eq!(r, Err(EscrowError::EscrowAlreadyResolved));
    assert_eq!(accounts, after_first);
    let r = EscrowProcessor::process_player_b_wins(&mut accounts, &mut record, 1_000);
    assert_eq!(r, Err(EscrowError::EscrowAlreadyResolved));
    assert_eq!(accounts, after_first);
}

#[test]
fn resolution_rejects_a_mismatched_amount() {
    let mut accounts = resolve_accounts();
    let before = accounts.clone();
    let mut record = initialized_record();
    let r = EscrowProcessor::process_player_a_wins(&mut accounts, &mut record, 999);
    assert_eq!(r, Err(EscrowError::AmountMismatch));
    assert_eq!(accounts, before);
    assert_eq!(record, initialized_record());
}

#[test]
fn resolution_rejects_a_winner_short_of_the_pledge() {
    let mut accounts = resolve_accounts();
    accounts[1].lamports = 999;
    let before = accounts.clone();
    let mut record = initialized_record();
    let r = EscrowProcessor::process_player_a_wins(&mut accounts, &mut record, 1_000);
    assert_eq!(r, Err(EscrowError::InsufficientLamports));
    assert_eq!(accounts, before);
    assert_eq!(record, initialized_record());
}

#[test]
fn resolution_rejects_receiver_balance_overflow() {
    let mut accounts = resolve_accounts();
    accounts[3].lamports = u64::MAX - 999;
    let before = accounts.clone();
    let mut record = initialized_record();
    let r = EscrowProcessor::process_player_b_wins(&mut accounts, &mut record, 1_000);
    assert_eq!(r, Err(EscrowError::AmountOverflow));
    assert_eq!(accounts, before);
    assert_eq!(record, initialized_record());
}

#[test]
fn resolution_rejects_short_account_list() {
    let mut accounts = resolve_accounts();
    accounts.truncate(4);
    let mut record = initialized_record();
    let r = EscrowProcessor::process_player_a_wins(&mut accounts, &mut record, 1_000);
    assert_eq!(r, Err(EscrowError::NotEnoughAccountKeys));
    assert_eq!(record, initialized_record());
}
