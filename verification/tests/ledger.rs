use auditor::account::{decode_account, AccountId};
use auditor::entry::AuditLog;
use auditor::error::Error;
use auditor::pallet::{Event, Pallet, GENESIS_TIME};

const A: AccountId = 10;
const B: AccountId = 20;
const C: AccountId = 30;

fn bytes(text: &str) -> Vec<u8> {
    text.as_bytes().to_vec()
}

fn append(ledger: &mut Pallet, who: AccountId, name: &str, date: &str, timestamp: &str) -> Result<(), Error> {
    ledger.save_audit_log(who, bytes(name), bytes(date), bytes("title"), bytes("content"), bytes(timestamp))
}

fn timestamps(entries: Vec<AuditLog<AccountId>>) -> Vec<Vec<u8>> {
    entries.into_iter().map(|e| e.get_timestamp()).collect()
}

fn pubkey(first: u8) -> [u8; 32] {
    let mut key = [0u8; 32];
    key[0] = first;
    key
}

#[test]
fn first_writer_becomes_the_sole_owner() {
    let mut ledger = Pallet::new();
    assert_eq!(ledger.retrieve_audit_log_owner(bytes("f")), None);
    assert!(!ledger.is_owner(&bytes("f"), A));
    assert_eq!(append(&mut ledger, A, "f", "d", "t1"), Ok(()));
    assert_eq!(ledger.retrieve_audit_log_owner(bytes("f")), Some(vec![A]));
    assert!(ledger.is_owner(&bytes("f"), A));
    assert!(!ledger.is_owner(&bytes("f"), B));
    assert_eq!(ledger.retrieve_audit_log(bytes("f"), bytes("d")).len(), 1);
}

#[test]
fn owner_appending_again_is_not_added_twice() {
    let mut ledger = Pallet::new();
    assert_eq!(append(&mut ledger, A, "f", "d", "t1"), Ok(()));
    assert_eq!(append(&mut ledger, A, "f", "d", "t2"), Ok(()));
    assert_eq!(append(&mut ledger, A, "f", "e", "t3"), Ok(()));
    assert_eq!(ledger.retrieve_audit_log_owner(bytes("f")), Some(vec![A]));
}

#[test]
fn stranger_is_refused_and_nothing_changes() {
    let mut ledger = Pallet::new();
    assert_eq!(append(&mut ledger, A, "f", "d", "t1"), Ok(()));
    let _ = ledger.take_events();
    assert_eq!(append(&mut ledger, B, "f", "d", "t2"), Err(Error::NotAnOwner));
    assert_eq!(append(&mut ledger, B, "f", "other", "t2"), Err(Error::NotAnOwner));
    assert_eq!(timestamps(ledger.retrieve_audit_log(bytes("f"), bytes("d"))), vec![bytes("t1")]);
    assert!(ledger.retrieve_audit_log(bytes("f"), bytes("other")).is_empty());
    assert_eq!(ledger.retrieve_audit_log_owner(bytes("f")), Some(vec![A]));
    assert!(ledger.take_events().is_empty());
}

#[test]
fn appends_accumulate_in_append_order() {
    let mut ledger = Pallet::new();
    let stamps = ["t4", "t1", "t3", "t1", "t2", "t0"];
    for (done, stamp) in stamps.iter().enumerate() {
        assert_eq!(ledger.retrieve_audit_log(bytes("f"), bytes("d")).len(), done);
        assert_eq!(append(&mut ledger, A, "f", "d", stamp), Ok(()));
    }
    let expected: Vec<Vec<u8>> = stamps.iter().map(|s| bytes(s)).collect();
    assert_eq!(timestamps(ledger.retrieve_audit_log(bytes("f"), bytes("d"))), expected);
}

#[test]
fn entry_keeps_every_field() {
    let mut ledger = Pallet::new();
    assert_eq!(
        ledger.save_audit_log(A, bytes("f"), bytes("d"), bytes("the title"), bytes("the content"), bytes("the time")),
        Ok(())
    );
    let entries = ledger.retrieve_audit_log(bytes("f"), bytes("d"));
    assert_eq!(entries, vec![AuditLog::new(bytes("the title"), bytes("the content"), bytes("the time"), A)]);
    let entry = entries[0].clone();
    assert_eq!(entry.clone().get_title(), bytes("the title"));
    assert_eq!(entry.clone().get_content(), bytes("the content"));
    assert_eq!(entry.clone().get_timestamp(), bytes("the time"));
    assert_eq!(entry.get_reporter(), A);
}

#[test]
fn buckets_are_kept_apart_by_name_and_by_date() {
    let mut ledger = Pallet::new();
    assert_eq!(append(&mut ledger, A, "f", "d1", "t1"), Ok(()));
    assert_eq!(append(&mut ledger, A, "f", "d2", "t2"), Ok(()));
    assert_eq!(append(&mut ledger, B, "g", "d1", "t3"), Ok(()));
    assert_eq!(append(&mut ledger, A, "f", "d1", "t4"), Ok(()));
    assert_eq!(timestamps(ledger.retrieve_audit_log(bytes("f"), bytes("d1"))), vec![bytes("t1"), bytes("t4")]);
    assert_eq!(timestamps(ledger.retrieve_audit_log(bytes("f"), bytes("d2"))), vec![bytes("t2")]);
    assert_eq!(timestamps(ledger.retrieve_audit_log(bytes("g"), bytes("d1"))), vec![bytes("t3")]);
    assert_eq!(ledger.retrieve_audit_log_owner(bytes("f")), Some(vec![A]));
    assert_eq!(ledger.retrieve_audit_log_owner(bytes("g")), Some(vec![B]));
}

#[test]
fn names_are_byte_sensitive() {
    let mut ledger = Pallet::new();
    assert_eq!(append(&mut ledger, A, "log", "d", "t1"), Ok(()));
    assert_eq!(append(&mut ledger, B, "Log", "d", "t2"), Ok(()));
    assert_eq!(append(&mut ledger, B, "log ", "d", "t3"), Ok(()));
    assert_eq!(append(&mut ledger, B, "", "d", "t4"), Ok(()));
    assert_eq!(append(&mut ledger, B, "log", "d", "t5"), Err(Error::NotAnOwner));
    assert_eq!(ledger.retrieve_audit_log(bytes("log"), bytes("d")).len(), 1);
    assert_eq!(ledger.retrieve_audit_log(bytes(""), bytes("d")).len(), 1);
}

#[test]
fn scenario_of_two_users_on_one_name() {
    let mut ledger = Pallet::new();
    assert_eq!(append(&mut ledger, A, "f", "d", "t1"), Ok(()));
    assert!(ledger.is_owner(&bytes("f"), A));
    assert_eq!(append(&mut ledger, B, "f", "d", "t2"), Err(Error::NotAnOwner));
    assert_eq!(append(&mut ledger, A, "f", "d", "t3"), Ok(()));
    let page = ledger.retrieve_paginated_audit_logs(bytes("f"), bytes("d"), 10, 1);
    assert_eq!(timestamps(page), vec![bytes("t1"), bytes("t3")]);
}

#[test]
fn pages_of_three_over_five_entries() {
    let mut ledger = Pallet::new();
    for stamp in ["e1", "e2", "e3", "e4", "e5"] {
        assert_eq!(append(&mut ledger, A, "f", "d", stamp), Ok(()));
    }
    assert_eq!(
        timestamps(ledger.retrieve_paginated_audit_logs(bytes("f"), bytes("d"), 3, 1)),
        vec![bytes("e1"), bytes("e2"), bytes("e3")]
    );
    assert_eq!(
        timestamps(ledger.retrieve_paginated_audit_logs(bytes("f"), bytes("d"), 3, 2)),
        vec![bytes("e4"), bytes("e5")]
    );
    assert!(ledger.retrieve_paginated_audit_logs(bytes("f"), bytes("d"), 3, 3).is_empty());
}

#[test]
fn reading_what_was_never_written_is_empty() {
    let mut ledger = Pallet::new();
    assert!(ledger.retrieve_audit_log(bytes("f"), bytes("d")).is_empty());
    assert!(ledger.retrieve_paginated_audit_logs(bytes("f"), bytes("d"), 3, 1).is_empty());
    assert_eq!(append(&mut ledger, A, "f", "d", "t1"), Ok(()));
    assert!(ledger.retrieve_paginated_audit_logs(bytes("f"), bytes("other"), 3, 1).is_empty());
    assert!(ledger.retrieve_paginated_audit_logs(bytes("g"), bytes("d"), 3, 1).is_empty());
    assert!(ledger.retrieve_paginated_audit_logs(bytes("g"), bytes("d"), 0, 0).is_empty());
}

#[test]
fn page_zero_reads_as_page_one() {
    let mut ledger = Pallet::new();
    for stamp in ["e1", "e2", "e3"] {
        assert_eq!(append(&mut ledger, A, "f", "d", stamp), Ok(()));
    }
    assert_eq!(
        timestamps(ledger.retrieve_paginated_audit_logs(bytes("f"), bytes("d"), 2, 0)),
        vec![bytes("e1"), bytes("e2")]
    );
    assert_eq!(
        timestamps(ledger.retrieve_paginated_audit_logs(bytes("f"), bytes("d"), 2, 1)),
        vec![bytes("e1"), bytes("e2")]
    );
}

#[test]
fn opening_an_unknown_name_is_refused() {
    let mut ledger = Pallet::new();
    assert_eq!(ledger.open_for_claim(A, bytes("f"), C), Err(Error::UnknownLog));
    assert_eq!(ledger.open_log_for_ownership_claim(A, bytes("f"), pubkey(C as u8)), Err(Error::UnknownLog));
    assert_eq!(ledger.retrieve_audit_log_open_for_claim(bytes("f")), None);
    assert!(ledger.take_events().is_empty());
}

#[test]
fn opening_by_a_stranger_is_refused() {
    let mut ledger = Pallet::new();
    assert_eq!(append(&mut ledger, A, "f", "d", "t1"), Ok(()));
    assert_eq!(ledger.open_for_claim(B, bytes("f"), C), Err(Error::NotAnOwner));
    assert_eq!(ledger.retrieve_audit_log_open_for_claim(bytes("f")), None);
}

#[test]
fn a_name_has_one_pending_claim_at_most() {
    let mut ledger = Pallet::new();
    assert_eq!(append(&mut ledger, A, "f", "d", "t1"), Ok(()));
    assert_eq!(ledger.open_for_claim(A, bytes("f"), C), Ok(()));
    let pending = ledger.retrieve_audit_log_open_for_claim(bytes("f"));
    assert_eq!(ledger.open_for_claim(A, bytes("f"), C), Err(Error::AlreadyOpenForClaim));
    assert_eq!(ledger.open_for_claim(A, bytes("f"), B), Err(Error::AlreadyOpenForClaim));
    assert_eq!(ledger.open_log_for_ownership_claim(A, bytes("f"), pubkey(7)), Err(Error::AlreadyOpenForClaim));
    assert_eq!(ledger.retrieve_audit_log_open_for_claim(bytes("f")), pending);
    assert_eq!(pending.unwrap().get_assigned_claimer(), C);
}

#[test]
fn a_stranger_is_told_so_before_the_pending_claim_is_looked_at() {
    let mut ledger = Pallet::new();
    assert_eq!(append(&mut ledger, A, "f", "d", "t1"), Ok(()));
    assert_eq!(ledger.open_for_claim(A, bytes("f"), C), Ok(()));
    assert_eq!(ledger.open_for_claim(B, bytes("f"), B), Err(Error::NotAnOwner));
    assert_eq!(ledger.retrieve_audit_log_open_for_claim(bytes("f")).unwrap().get_assigned_claimer(), C);
}

#[test]
fn claims_on_different_names_do_not_meet() {
    let mut ledger = Pallet::new();
    assert_eq!(append(&mut ledger, A, "f", "d", "t1"), Ok(()));
    assert_eq!(append(&mut ledger, A, "g", "d", "t1"), Ok(()));
    assert_eq!(ledger.open_for_claim(A, bytes("f"), B), Ok(()));
    assert_eq!(ledger.open_for_claim(A, bytes("g"), C), Ok(()));
    assert_eq!(ledger.claim_log(C, bytes("f")), Err(Error::NotTheAssignedClaimer));
    assert_eq!(ledger.claim_log(C, bytes("g")), Ok(()));
    assert_eq!(ledger.retrieve_audit_log_owner(bytes("f")), Some(vec![A]));
    assert_eq!(ledger.retrieve_audit_log_owner(bytes("g")), Some(vec![A, C]));
    assert!(ledger.retrieve_audit_log_open_for_claim(bytes("f")).is_some());
}

#[test]
fn accepting_without_a_claim_is_refused() {
    let mut ledger = Pallet::new();
    assert_eq!(ledger.claim_log(C, bytes("f")), Err(Error::NoOpenClaim));
    assert_eq!(append(&mut ledger, A, "f", "d", "t1"), Ok(()));
    assert_eq!(ledger.claim_log(C, bytes("f")), Err(Error::NoOpenClaim));
    assert_eq!(ledger.claim_log(A, bytes("f")), Err(Error::NoOpenClaim));
    assert_eq!(ledger.retrieve_audit_log_owner(bytes("f")), Some(vec![A]));
}

#[test]
fn accepting_by_another_account_is_refused() {
    let mut ledger = Pallet::new();
    assert_eq!(append(&mut ledger, A, "f", "d", "t1"), Ok(()));
    assert_eq!(ledger.open_for_claim(A, bytes("f"), C), Ok(()));
    let _ = ledger.take_events();
    assert_eq!(ledger.claim_log(B, bytes("f")), Err(Error::NotTheAssignedClaimer));
    assert_eq!(ledger.claim_log(A, bytes("f")), Err(Error::NotTheAssignedClaimer));
    assert_eq!(ledger.retrieve_audit_log_owner(bytes("f")), Some(vec![A]));
    assert!(ledger.retrieve_audit_log_open_for_claim(bytes("f")).is_some());
    assert!(ledger.take_events().is_empty());
}

#[test]
fn accepting_a_claim_adds_an_owner_and_keeps_the_others() {
    let mut ledger = Pallet::new();
    assert_eq!(append(&mut ledger, A, "f", "d", "t1"), Ok(()));
    assert_eq!(append(&mut ledger, C, "f", "d", "t2"), Err(Error::NotAnOwner));
    assert_eq!(ledger.open_for_claim(A, bytes("f"), C), Ok(()));
    assert_eq!(append(&mut ledger, C, "f", "d", "t2"), Err(Error::NotAnOwner));
    assert_eq!(ledger.claim_log(C, bytes("f")), Ok(()));
    assert!(ledger.is_owner(&bytes("f"), A));
    assert!(ledger.is_owner(&bytes("f"), C));
    assert!(!ledger.is_owner(&bytes("f"), B));
    assert_eq!(ledger.retrieve_audit_log_owner(bytes("f")), Some(vec![A, C]));
    assert_eq!(ledger.retrieve_audit_log_open_for_claim(bytes("f")), None);
    assert_eq!(ledger.claim_log(C, bytes("f")), Err(Error::NoOpenClaim));
    assert_eq!(append(&mut ledger, C, "f", "d", "t3"), Ok(()));
    assert_eq!(append(&mut ledger, A, "f", "d", "t4"), Ok(()));
    assert_eq!(
        timestamps(ledger.retrieve_audit_log(bytes("f"), bytes("d"))),
        vec![bytes("t1"), bytes("t3"), bytes("t4")]
    );
    assert_eq!(ledger.open_for_claim(C, bytes("f"), B), Ok(()));
}

#[test]
fn a_claim_records_name_claimer_and_time() {
    let mut ledger = Pallet::new();
    assert_eq!(ledger.time(), GENESIS_TIME);
    assert_eq!(GENESIS_TIME, 123456789);
    assert_eq!(append(&mut ledger, A, "f", "d", "t1"), Ok(()));
    assert_eq!(append(&mut ledger, A, "g", "d", "t1"), Ok(()));
    assert_eq!(ledger.open_for_claim(A, bytes("f"), C), Ok(()));
    ledger.set_time(1_700_000_000);
    assert_eq!(ledger.time(), 1_700_000_000);
    assert_eq!(ledger.open_for_claim(A, bytes("g"), B), Ok(()));
    let first = ledger.retrieve_audit_log_open_for_claim(bytes("f")).unwrap();
    assert_eq!(first.clone().get_filename(), bytes("f"));
    assert_eq!(first.clone().get_assigned_claimer(), C);
    assert_eq!(first.get_opened_for_claim_timestamp(), 123456789);
    let second = ledger.retrieve_audit_log_open_for_claim(bytes("g")).unwrap();
    assert_eq!(second.clone().get_filename(), bytes("g"));
    assert_eq!(second.clone().get_assigned_claimer(), B);
    assert_eq!(second.get_opened_for_claim_timestamp(), 1_700_000_000);
}

#[test]
fn setting_the_time_changes_nothing_else() {
    let mut ledger = Pallet::new();
    assert_eq!(append(&mut ledger, A, "f", "d", "t1"), Ok(()));
    ledger.set_time(5);
    assert_eq!(ledger.retrieve_audit_log(bytes("f"), bytes("d")).len(), 1);
    assert_eq!(ledger.retrieve_audit_log_owner(bytes("f")), Some(vec![A]));
    assert_eq!(ledger.take_events().len(), 1);
}

#[test]
fn the_claimer_is_decoded_from_the_public_key() {
    let mut ledger = Pallet::new();
    assert_eq!(append(&mut ledger, A, "f", "d", "t1"), Ok(()));
    let mut key = [0xffu8; 32];
    key[..8].copy_from_slice(&[0x08, 0x07, 0x06, 0x05, 0x04, 0x03, 0x02, 0x01]);
    assert_eq!(ledger.open_log_for_ownership_claim(A, bytes("f"), key), Ok(()));
    let claim = ledger.retrieve_audit_log_open_for_claim(bytes("f")).unwrap();
    assert_eq!(claim.get_assigned_claimer(), 0x0102_0304_0506_0708);
    assert_eq!(ledger.claim_log(0x0807_0605_0403_0201, bytes("f")), Err(Error::NotTheAssignedClaimer));
    assert_eq!(ledger.claim_log(0x0102_0304_0506_0708, bytes("f")), Ok(()));
}

#[test]
fn decoding_an_account() {
    assert_eq!(decode_account(&[1, 0, 0, 0, 0, 0, 0, 0]), 1);
    assert_eq!(decode_account(&[0, 1, 0, 0, 0, 0, 0, 0]), 256);
    assert_eq!(decode_account(&[0, 0, 0, 0, 0, 0, 0, 1]), 1 << 56);
    assert_eq!(decode_account(&[0xff; 8]), u64::MAX);
    assert_eq!(decode_account(&[0x08, 0x07, 0x06, 0x05, 0x04, 0x03, 0x02, 0x01, 0x55, 0x66]), 0x0102_0304_0506_0708);
    assert_eq!(
        decode_account(&[0, 0, 0, 1, 0, 0, 1, 0, 0, 1, 0, 0, 1, 0, 0, 1, 0, 0, 0, 1, 0, 0, 1, 0, 0, 1, 0, 0, 1, 0, 0, 1]),
        281_474_993_487_872
    );
}

#[test]
fn bytes_that_do_not_decode_give_the_default_account() {
    assert_eq!(decode_account(&[]), 0);
    assert_eq!(decode_account(&[9]), 0);
    assert_eq!(decode_account(&[9, 9, 9, 9, 9, 9, 9]), 0);
}

#[test]
fn events_come_out_in_order_and_once() {
    let mut ledger = Pallet::new();
    assert!(ledger.take_events().is_empty());
    assert_eq!(append(&mut ledger, A, "f", "d", "t1"), Ok(()));
    assert_eq!(append(&mut ledger, B, "f", "d", "t2"), Err(Error::NotAnOwner));
    assert_eq!(ledger.open_for_claim(A, bytes("f"), C), Ok(()));
    assert_eq!(ledger.open_for_claim(A, bytes("f"), C), Err(Error::AlreadyOpenForClaim));
    assert_eq!(ledger.claim_log(B, bytes("f")), Err(Error::NotTheAssignedClaimer));
    assert_eq!(ledger.claim_log(C, bytes("f")), Ok(()));
    assert_eq!(
        ledger.take_events(),
        vec![
            Event::LogAppended(bytes("f"), bytes("d"), A),
            Event::ClaimOpened(bytes("f"), A),
            Event::ClaimAccepted(bytes("f"), C),
        ]
    );
    assert!(ledger.take_events().is_empty());
    assert_eq!(ledger.retrieve_audit_log(bytes("f"), bytes("d")).len(), 1);
    assert_eq!(ledger.retrieve_audit_log_owner(bytes("f")), Some(vec![A, C]));
}

#[test]
fn errors_name_the_rule_that_was_broken() {
    assert_eq!(Error::NotAnOwner.as_str(), "NotAnOwner");
    assert_eq!(Error::UnknownLog.as_str(), "UnknownLog");
    assert_eq!(Error::AlreadyOpenForClaim.as_str(), "AlreadyOpenForClaim");
    assert_eq!(Error::NoOpenClaim.as_str(), "NoOpenClaim");
    assert_eq!(Error::NotTheAssignedClaimer.as_str(), "NotTheAssignedClaimer");
}
