use mynachain::{
    account_id_of, AccountId, Event, Ledger, LedgerError, SignedData, Tx, TxCreateAccount,
    TxMint, TxNextTerm, TxSend, TxVote, TxWrite, Verdict, INITIAL_GRANT,
};

fn cert(tag: &str) -> Vec<u8> {
    format!("-----BEGIN CERTIFICATE----- {} -----END CERTIFICATE-----", tag).into_bytes()
}

/// A ledger with one account per tag, all created in term 0.
fn ledger_with(tags: &[&str]) -> (Ledger, Vec<AccountId>) {
    let mut ledger = Ledger::new();
    let mut ids = Vec::new();
    for tag in tags {
        let c = cert(tag);
        let id = account_id_of(&c);
        let r = ledger.create_account(TxCreateAccount { cert: c, nonce: 0 }, Verdict::Valid);
        assert_eq!(r, Ok(()));
        ids.push(id);
    }
    (ledger, ids)
}

fn nonce_of(ledger: &Ledger, id: &AccountId) -> u64 {
    ledger.account(id).expect("account is registered").nonce
}

fn signed(id: AccountId, tbs: Tx) -> SignedData {
    SignedData { id, tbs, signature: vec![0xAB; 64] }
}

#[test]
fn it_works_for_default_value() {
    let ledger = Ledger::new();
    assert_eq!(ledger.account_count(), 0);
    assert_eq!(ledger.term_number(), 0);
    assert_eq!(ledger.votes_cum(0), 0);
    assert!(ledger.events().is_empty());
}

#[test]
fn account_id_is_blake2_256_of_certificate() {
    let empty = account_id_of(&Vec::new());
    let expected: [u8; 32] = [
        0x0e, 0x57, 0x51, 0xc0, 0x26, 0xe5, 0x43, 0xb2, 0xe8, 0xab, 0x2e, 0xb0, 0x60, 0x99, 0xda,
        0xa1, 0xd1, 0xe5, 0xdf, 0x47, 0x77, 0x8f, 0x77, 0x87, 0xfa, 0xab, 0x45, 0xcd, 0xf1, 0x2f,
        0xe3, 0xa8,
    ];
    assert_eq!(empty.bytes, expected);
    let a = account_id_of(&cert("a"));
    let b = account_id_of(&cert("b"));
    assert_ne!(a, b);
    assert_eq!(a, account_id_of(&cert("a")));
}

#[test]
fn create_account_succeeds_with_initial_grant() {
    let mut ledger = Ledger::new();
    let c = cert("a");
    let id = account_id_of(&c);
    let r = ledger.create_account(TxCreateAccount { cert: c.clone(), nonce: 0 }, Verdict::Valid);
    assert_eq!(r, Ok(()));
    assert_eq!(ledger.compute_balance(&id), Ok(1_000_000));
    assert_eq!(ledger.balance(&id), INITIAL_GRANT);
    let account = ledger.account(&id).expect("created");
    assert_eq!(account.nonce, 0);
    assert_eq!(account.cert, c);
    assert!(account.data.is_empty());
    assert_eq!(account.created_at, 0);
    assert_eq!(ledger.account_count(), 1);
    assert_eq!(ledger.account_enum(0), Some(id));
    assert_eq!(ledger.account_enum(1), None);
    assert_eq!(ledger.events(), &vec![Event::AccountCreated(id)]);
}

#[test]
fn create_account_twice_fails_already_exists() {
    let (mut ledger, ids) = ledger_with(&["a"]);
    let r = ledger.create_account(TxCreateAccount { cert: cert("a"), nonce: 0 }, Verdict::Valid);
    assert_eq!(r, Err(LedgerError::AccountAlreadyExists));
    assert_eq!(ledger.account_count(), 1);
    assert_eq!(ledger.events().len(), 1);
    assert_eq!(ledger.compute_balance(&ids[0]), Ok(1_000_000));
}

#[test]
fn create_account_with_nonzero_nonce_fails() {
    let mut ledger = Ledger::new();
    let r = ledger.create_account(TxCreateAccount { cert: cert("a"), nonce: 1 }, Verdict::Valid);
    assert_eq!(r, Err(LedgerError::InvalidPayload));
    assert_eq!(ledger.account_count(), 0);
}

#[test]
fn create_account_reports_each_verdict() {
    let mut ledger = Ledger::new();
    let cases = [
        (Verdict::InconsistentCertificate, LedgerError::InvalidPayload),
        (Verdict::MalformedCertificate, LedgerError::MalformedCertificate),
        (Verdict::InvalidSignature, LedgerError::InvalidSignature),
    ];
    for (verdict, error) in cases {
        let r = ledger.create_account(TxCreateAccount { cert: cert("a"), nonce: 0 }, verdict);
        assert_eq!(r, Err(error));
    }
    assert_eq!(ledger.account_count(), 0);
    assert!(ledger.events().is_empty());
}

#[test]
fn send_to_missing_account_fails() {
    let (mut ledger, ids) = ledger_with(&["a"]);
    let b = account_id_of(&cert("b"));
    let r = ledger.send(&ids[0], TxSend { to: b, amount: 400_000 }, Verdict::Valid);
    assert_eq!(r, Err(LedgerError::AccountNotFound));
    assert_eq!(ledger.compute_balance(&ids[0]), Ok(1_000_000));
    assert_eq!(nonce_of(&ledger, &ids[0]), 0);
    assert_eq!(ledger.events().len(), 1);
}

#[test]
fn send_from_unregistered_sender_fails() {
    let (mut ledger, ids) = ledger_with(&["a"]);
    let stranger = account_id_of(&cert("z"));
    let r = ledger.send(&stranger, TxSend { to: ids[0], amount: 1 }, Verdict::Valid);
    assert_eq!(r, Err(LedgerError::AccountNotFound));
    assert_eq!(ledger.compute_balance(&ids[0]), Ok(1_000_000));
}

#[test]
fn send_more_than_balance_fails_insufficient() {
    let (mut ledger, ids) = ledger_with(&["a", "b"]);
    assert_eq!(ledger.compute_balance(&ids[1]), Ok(1_000_000));
    let r = ledger.send(&ids[0], TxSend { to: ids[1], amount: 1_000_001 }, Verdict::Valid);
    assert_eq!(r, Err(LedgerError::InsufficientBalance));
    assert_eq!(ledger.compute_balance(&ids[0]), Ok(1_000_000));
    assert_eq!(ledger.compute_balance(&ids[1]), Ok(1_000_000));
    assert_eq!(nonce_of(&ledger, &ids[0]), 0);
}

#[test]
fn send_whole_balance_succeeds() {
    let (mut ledger, ids) = ledger_with(&["a", "b"]);
    let r = ledger.send(&ids[0], TxSend { to: ids[1], amount: 1_000_000 }, Verdict::Valid);
    assert_eq!(r, Ok(()));
    assert_eq!(ledger.compute_balance(&ids[0]), Ok(0));
    assert_eq!(ledger.compute_balance(&ids[1]), Ok(2_000_000));
}

#[test]
fn send_transfers_and_bumps_nonce() {
    let (mut ledger, ids) = ledger_with(&["a", "b"]);
    let (a, b) = (ids[0], ids[1]);
    let before = ledger.compute_balance(&a).unwrap() + ledger.compute_balance(&b).unwrap();
    let r = ledger.send(&a, TxSend { to: b, amount: 400_000 }, Verdict::Valid);
    assert_eq!(r, Ok(()));
    assert_eq!(ledger.compute_balance(&a), Ok(600_000));
    assert_eq!(ledger.compute_balance(&b), Ok(1_400_000));
    assert_eq!(nonce_of(&ledger, &a), 1);
    assert_eq!(nonce_of(&ledger, &b), 0);
    assert_eq!(ledger.events().last(), Some(&Event::Transferred(a, b, 400_000)));
    let after = ledger.compute_balance(&a).unwrap() + ledger.compute_balance(&b).unwrap();
    assert_eq!(before, after);
}

#[test]
fn send_to_self_keeps_balance() {
    let (mut ledger, ids) = ledger_with(&["a"]);
    let a = ids[0];
    let r = ledger.send(&a, TxSend { to: a, amount: 250_000 }, Verdict::Valid);
    assert_eq!(r, Ok(()));
    assert_eq!(ledger.compute_balance(&a), Ok(1_000_000));
    assert_eq!(nonce_of(&ledger, &a), 1);
}

#[test]
fn send_that_overflows_fails_arithmetic() {
    let (mut ledger, ids) = ledger_with(&["a", "b"]);
    let r = ledger.send(&ids[0], TxSend { to: ids[1], amount: i64::MIN }, Verdict::Valid);
    assert_eq!(r, Err(LedgerError::ArithmeticError));
    assert_eq!(ledger.compute_balance(&ids[0]), Ok(1_000_000));
    assert_eq!(ledger.compute_balance(&ids[1]), Ok(1_000_000));
    assert_eq!(nonce_of(&ledger, &ids[0]), 0);
}

#[test]
fn send_with_bad_signature_fails() {
    let (mut ledger, ids) = ledger_with(&["a", "b"]);
    let r = ledger.send(&ids[0], TxSend { to: ids[1], amount: 5 }, Verdict::InvalidSignature);
    assert_eq!(r, Err(LedgerError::InvalidSignature));
    let r = ledger.send(&ids[0], TxSend { to: ids[1], amount: 5 }, Verdict::MalformedCertificate);
    assert_eq!(r, Err(LedgerError::MalformedCertificate));
    assert_eq!(ledger.compute_balance(&ids[0]), Ok(1_000_000));
    assert_eq!(nonce_of(&ledger, &ids[0]), 0);
}

#[test]
fn transfer_checks_both_accounts() {
    let (mut ledger, ids) = ledger_with(&["a"]);
    let b = account_id_of(&cert("b"));
    assert_eq!(ledger.transfer(b, ids[0], 1), Err(LedgerError::AccountNotFound));
    assert_eq!(ledger.transfer(ids[0], b, 1), Err(LedgerError::AccountNotFound));
    assert!(ledger.contains_account(&ids[0]));
    assert!(!ledger.contains_account(&b));
}

#[test]
fn compute_balance_of_missing_account_fails() {
    let ledger = Ledger::new();
    let a = account_id_of(&cert("a"));
    assert_eq!(ledger.compute_balance(&a), Err(LedgerError::AccountNotFound));
    assert_eq!(ledger.balance(&a), 0);
}

#[test]
fn next_term_advances_and_carries_total() {
    let (mut ledger, ids) = ledger_with(&["a", "b"]);
    assert_eq!(ledger.votes_cum(0), 0);
    let r = ledger.next_term(&ids[0], TxNextTerm {}, Verdict::Valid);
    assert_eq!(r, Ok(()));
    assert_eq!(ledger.term_number(), 1);
    assert_eq!(ledger.votes_cum(1), 0);
    assert!(ledger.votes_cum(1) >= ledger.votes_cum(0));
    assert_eq!(ledger.events().last(), Some(&Event::TermAdvanced(1)));
    assert_eq!(ledger.compute_balance(&ids[0]), Ok(1_000_000));
    assert_eq!(ledger.compute_balance(&ids[1]), Ok(1_000_000));
}

#[test]
fn next_term_requires_registered_sender() {
    let mut ledger = Ledger::new();
    let a = account_id_of(&cert("a"));
    let r = ledger.next_term(&a, TxNextTerm {}, Verdict::Valid);
    assert_eq!(r, Err(LedgerError::AccountNotFound));
    assert_eq!(ledger.term_number(), 0);
}

#[test]
fn account_created_in_later_term_starts_from_that_term() {
    let (mut ledger, ids) = ledger_with(&["a"]);
    assert_eq!(ledger.next_term(&ids[0], TxNextTerm {}, Verdict::Valid), Ok(()));
    let c = cert("b");
    let b = account_id_of(&c);
    assert_eq!(ledger.create_account(TxCreateAccount { cert: c, nonce: 0 }, Verdict::Valid), Ok(()));
    assert_eq!(ledger.account(&b).unwrap().created_at, 1);
    assert_eq!(ledger.compute_balance(&b), Ok(ledger.balance(&b)));
    assert_eq!(ledger.account_enum(1), Some(b));
}

#[test]
fn write_replaces_data_and_bumps_nonce() {
    let (mut ledger, ids) = ledger_with(&["a"]);
    let a = ids[0];
    assert_eq!(ledger.write(&a, TxWrite { data: vec![1, 2, 3] }, Verdict::Valid), Ok(()));
    assert_eq!(ledger.write(&a, TxWrite { data: vec![9] }, Verdict::Valid), Ok(()));
    let account = ledger.account(&a).unwrap();
    assert_eq!(account.data, vec![9]);
    assert_eq!(account.nonce, 2);
    assert_eq!(ledger.events().last(), Some(&Event::DataWritten(a)));
}

#[test]
fn write_with_bad_signature_changes_nothing() {
    let (mut ledger, ids) = ledger_with(&["a"]);
    let r = ledger.write(&ids[0], TxWrite { data: vec![7] }, Verdict::InvalidSignature);
    assert_eq!(r, Err(LedgerError::InvalidSignature));
    let account = ledger.account(&ids[0]).unwrap();
    assert!(account.data.is_empty());
    assert_eq!(account.nonce, 0);
}

#[test]
fn increment_nonce_counts_up() {
    let (mut ledger, ids) = ledger_with(&["a"]);
    assert_eq!(ledger.increment_nonce(&ids[0]), Ok(()));
    assert_eq!(nonce_of(&ledger, &ids[0]), 1);
    let b = account_id_of(&cert("b"));
    assert_eq!(ledger.increment_nonce(&b), Err(LedgerError::AccountNotFound));
}

#[test]
fn ensure_rsa_signed_resolves_sender() {
    let (ledger, ids) = ledger_with(&["a"]);
    assert_eq!(ledger.ensure_rsa_signed(&ids[0], Verdict::Valid), Ok(ids[0]));
    assert_eq!(
        ledger.ensure_rsa_signed(&ids[0], Verdict::InvalidSignature),
        Err(LedgerError::InvalidSignature)
    );
    let b = account_id_of(&cert("b"));
    assert_eq!(ledger.ensure_rsa_signed(&b, Verdict::Valid), Err(LedgerError::AccountNotFound));
}

#[test]
fn mint_is_disabled() {
    let (mut ledger, ids) = ledger_with(&["a"]);
    assert_eq!(ledger.mint(&ids[0], TxMint { amount: 5 }), Err(LedgerError::FeatureDisabled));
    let r = ledger.go(signed(ids[0], Tx::Mint(TxMint { amount: 1_000 })), Verdict::Valid);
    assert_eq!(r, Err(LedgerError::FeatureDisabled));
    assert_eq!(ledger.compute_balance(&ids[0]), Ok(1_000_000));
    assert_eq!(nonce_of(&ledger, &ids[0]), 0);
    assert_eq!(ledger.events().len(), 1);
}

#[test]
fn vote_is_disabled() {
    let (mut ledger, ids) = ledger_with(&["a"]);
    assert_eq!(ledger.vote(&ids[0], TxVote { amount: 5 }), Err(LedgerError::FeatureDisabled));
    let r = ledger.go(signed(ids[0], Tx::Vote(TxVote { amount: -3 })), Verdict::Valid);
    assert_eq!(r, Err(LedgerError::FeatureDisabled));
    assert_eq!(ledger.votes_cum(0), 0);
    assert_eq!(ledger.events().len(), 1);
}

#[test]
fn go_routes_each_kind() {
    let mut ledger = Ledger::new();
    let (ca, cb) = (cert("a"), cert("b"));
    let (a, b) = (account_id_of(&ca), account_id_of(&cb));
    let create = |c: Vec<u8>, id| signed(id, Tx::CreateAccount(TxCreateAccount { cert: c, nonce: 0 }));
    assert_eq!(ledger.go(create(ca, a), Verdict::Valid), Ok(()));
    assert_eq!(ledger.go(create(cb, b), Verdict::Valid), Ok(()));
    let send = signed(a, Tx::Send(TxSend { to: b, amount: 400_000 }));
    assert_eq!(ledger.go(send, Verdict::Valid), Ok(()));
    assert_eq!(ledger.go(signed(b, Tx::Write(TxWrite { data: vec![4] })), Verdict::Valid), Ok(()));
    assert_eq!(ledger.go(signed(b, Tx::NextTerm(TxNextTerm {})), Verdict::Valid), Ok(()));
    assert_eq!(ledger.compute_balance(&a), Ok(600_000));
    assert_eq!(ledger.compute_balance(&b), Ok(1_400_000));
    assert_eq!(nonce_of(&ledger, &a), 1);
    assert_eq!(nonce_of(&ledger, &b), 1);
    assert_eq!(ledger.term_number(), 1);
    assert_eq!(
        ledger.events(),
        &vec![
            Event::AccountCreated(a),
            Event::AccountCreated(b),
            Event::Transferred(a, b, 400_000),
            Event::DataWritten(b),
            Event::TermAdvanced(1),
        ]
    );
}
