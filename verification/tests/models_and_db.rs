use intent_relay::db::{parse_relayer_whitelist, relayer_whitelist_or_default};
use intent_relay::models::{
    executed_count_from_db, fee_bps_from_db, nonce_from_db, DbIntentRow, IntentStatus,
    IntentStatusFilter, StoredIntent, Timestamp,
};

fn row(status: &str, nonce: i64, fee: i32) -> DbIntentRow {
    DbIntentRow {
        id: 0x1234,
        intent_hash: "0xhash".to_string(),
        maker: "0xmaker".to_string(),
        token_in: "0xin".to_string(),
        token_out: "0xout".to_string(),
        amount_in: "10".to_string(),
        min_amount_out: "9".to_string(),
        receiver: "0xreceiver".to_string(),
        deadline: -3,
        nonce,
        salt: "0x01".to_string(),
        max_relayer_fee_bps: fee,
        allowed_relayer: None,
        referral_code: Some("ref".to_string()),
        partial_fill_allowed: true,
        signature: "0xsig".to_string(),
        status: status.to_string(),
        created_at: Timestamp { secs: 100, nanos: 1 },
        executed_at: Some(Timestamp { secs: 200, nanos: 0 }),
        executed_by: Some("0xrelayer".to_string()),
        final_amount_out: Some("11".to_string()),
        execution_tx_hash: Some("0xtx".to_string()),
    }
}

#[test]
fn status_texts_round_trip() {
    for s in [IntentStatus::Pending, IntentStatus::Executed, IntentStatus::Expired, IntentStatus::Cancelled] {
        assert_eq!(IntentStatus::from_db_str(s.as_db_str()), s);
    }
    assert_eq!(IntentStatus::Pending.as_db_str(), "PENDING");
    assert_eq!(IntentStatus::Executed.as_db_str(), "EXECUTED");
    assert_eq!(IntentStatus::Expired.as_db_str(), "EXPIRED");
    assert_eq!(IntentStatus::Cancelled.as_db_str(), "CANCELLED");
}

#[test]
fn unknown_status_reads_as_pending() {
    assert_eq!(IntentStatus::from_db_str("bogus"), IntentStatus::Pending);
    assert_eq!(IntentStatus::from_db_str("executed"), IntentStatus::Pending);
    assert_eq!(IntentStatus::from_db_str(""), IntentStatus::Pending);
}

#[test]
fn filters_use_stored_texts() {
    let pairs = [
        (IntentStatusFilter::Pending, IntentStatus::Pending),
        (IntentStatusFilter::Executed, IntentStatus::Executed),
        (IntentStatusFilter::Expired, IntentStatus::Expired),
        (IntentStatusFilter::Cancelled, IntentStatus::Cancelled),
    ];
    for (f, s) in pairs {
        assert_eq!(f.as_db_str(), s.as_db_str());
        assert_eq!(IntentStatus::from_db_str(f.as_db_str()), s);
    }
}

#[test]
fn column_conversions() {
    assert_eq!(nonce_from_db(-5), 0);
    assert_eq!(nonce_from_db(5), 5);
    assert_eq!(fee_bps_from_db(-1), 0);
    assert_eq!(fee_bps_from_db(70_000), 4464);
    assert_eq!(fee_bps_from_db(300), 300);
    assert_eq!(executed_count_from_db(-3), 0);
    assert_eq!(executed_count_from_db(12), 12);
}

#[test]
fn stored_intent_from_row() {
    let s = StoredIntent::from(row("CANCELLED", -7, 70_000));
    assert_eq!(s.id, 0x1234);
    assert_eq!(s.status, IntentStatus::Cancelled);
    assert_eq!(s.intent.nonce, 0);
    assert_eq!(s.intent.max_relayer_fee_bps, 4464);
    assert_eq!(s.intent.deadline, -3);
    assert_eq!(s.intent.maker, "0xmaker");
    assert_eq!(s.intent.referral_code.as_deref(), Some("ref"));
    assert_eq!(s.created_at, Timestamp { secs: 100, nanos: 1 });
    assert_eq!(s.execution_tx_hash.as_deref(), Some("0xtx"));
    let s = StoredIntent::from(row("weird", 9, 30));
    assert_eq!(s.status, IntentStatus::Pending);
    assert_eq!(s.intent.nonce, 9);
    assert_eq!(s.intent.max_relayer_fee_bps, 30);
}

#[test]
fn default_whitelist_seeds_two_relayers() {
    let raw = relayer_whitelist_or_default(None);
    let seeds = parse_relayer_whitelist(&raw);
    assert_eq!(seeds.len(), 2);
    assert_eq!(seeds[0].address, "0x1111111111111111111111111111111111111111");
    assert_eq!(seeds[0].name, "RelayOne");
    assert_eq!(seeds[1].address, "0x2222222222222222222222222222222222222222");
    assert_eq!(seeds[1].name, "RelayTwo");
    assert_eq!(relayer_whitelist_or_default(Some("x".to_string())), "x");
}

#[test]
fn whitelist_items_are_trimmed_and_filtered() {
    let seeds = parse_relayer_whitelist(" 0xABC : Name ,, :NoAddr, 0xdef ,a:b:c,  ");
    let pairs: Vec<(&str, &str)> = seeds.iter().map(|s| (s.address.as_str(), s.name.as_str())).collect();
    assert_eq!(pairs, vec![("0xabc", "Name"), ("0xdef", "UnnamedRelayer"), ("a", "b")]);
    assert!(parse_relayer_whitelist("").is_empty());
    assert!(parse_relayer_whitelist(" , ,").is_empty());
}

#[test]
fn whitelist_addresses_are_lowercased() {
    let seeds = parse_relayer_whitelist("0xABCDEF:Mixed, 0xabcdef : Lower");
    assert_eq!(seeds[0].address, "0xabcdef");
    assert_eq!(seeds[1].address, "0xabcdef");
    assert_eq!(seeds[1].name, "Lower");
}
