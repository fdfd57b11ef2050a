use ethers_core::k256::ecdsa::SigningKey;
use intent_relay::api::{
    analytics_response, bad_request, cancel_intent, check_create_intent, check_relayer_proposal,
    db_error, new_intent_event, new_intent_record, new_proposal_record, not_found,
    relayer_lookup_address, subscription_step, HttpStatus, SubscriptionAction, SubscriptionEvent,
};
use intent_relay::models::{
    CancelIntentRequest, CreateIntentRequest, IntentPayload, IntentStatus, IntentStatusFilter,
    ListIntentsQuery, RelayerProposalRequest, StoredIntent, Timestamp,
};
use intent_relay::signature::{
    compute_eip712_digest, compute_intent_hash_hex, load_signature_config, SignatureConfig,
};

const NOW: i64 = 1_800_000_000;

fn signing_key() -> SigningKey {
    SigningKey::from_slice(&[7u8; 32]).unwrap()
}

fn maker_of(key: &SigningKey) -> String {
    let address = ethers_core::utils::secret_key_to_address(key);
    format!("0x{}", hex::encode(address.as_bytes()))
}

fn config() -> SignatureConfig {
    load_signature_config(None, None, Some("137".to_string()), None).unwrap()
}

fn intent(maker: &str) -> IntentPayload {
    IntentPayload {
        maker: maker.to_string(),
        token_in: "0xAAAAaaaaAAAAaaaaAAAAaaaaAAAAaaaaAAAAaaaa".to_string(),
        token_out: "0x2222222222222222222222222222222222222222".to_string(),
        amount_in: "1000".to_string(),
        min_amount_out: "990".to_string(),
        receiver: "0x3333333333333333333333333333333333333333".to_string(),
        deadline: NOW + 600,
        nonce: u64::MAX,
        salt: "0x01".to_string(),
        max_relayer_fee_bps: 25,
        allowed_relayer: Some("0xBBBBBBBBBBBBBBBBBBBBBBBBBBBBBBBBBBBBBBBB".to_string()),
        referral_code: None,
        partial_fill_allowed: true,
    }
}

fn signed_request(key: &SigningKey, intent: IntentPayload) -> CreateIntentRequest {
    let digest = compute_eip712_digest(&config(), &intent).unwrap();
    let (sig, recid) = key.sign_prehash_recoverable(&digest).unwrap();
    let mut bytes = sig.to_bytes().to_vec();
    bytes.push(27 + recid.to_byte());
    CreateIntentRequest { intent, signature: format!("0x{}", hex::encode(bytes)) }
}

fn stored(maker: &str, status: IntentStatus) -> StoredIntent {
    StoredIntent {
        id: 42,
        intent_hash: "0xabc".to_string(),
        intent: intent(maker),
        signature: "0xsig".to_string(),
        status,
        created_at: Timestamp { secs: NOW, nanos: 5 },
        executed_at: None,
        executed_by: None,
        final_amount_out: None,
        execution_tx_hash: None,
    }
}

#[test]
fn status_codes() {
    assert_eq!(HttpStatus::BadRequest.code(), 400);
    assert_eq!(HttpStatus::Unauthorized.code(), 401);
    assert_eq!(HttpStatus::Forbidden.code(), 403);
    assert_eq!(HttpStatus::NotFound.code(), 404);
    assert_eq!(HttpStatus::Conflict.code(), 409);
    assert_eq!(HttpStatus::InternalServerError.code(), 500);
    let e = bad_request("boom".to_string());
    assert_eq!((e.status, e.message.as_str()), (HttpStatus::BadRequest, "boom"));
    let e = not_found("intent not found");
    assert_eq!((e.status, e.message.as_str()), (HttpStatus::NotFound, "intent not found"));
}

#[test]
fn database_errors() {
    let e = db_error(Some("23505".to_string()));
    assert_eq!((e.status, e.message.as_str()), (HttpStatus::Conflict, "resource already exists"));
    let e = db_error(Some("23503".to_string()));
    assert_eq!(
        (e.status, e.message.as_str()),
        (HttpStatus::InternalServerError, "database operation failed")
    );
    let e = db_error(None);
    assert_eq!(e.status, HttpStatus::InternalServerError);
}

#[test]
fn valid_intent_is_accepted_with_its_hash() {
    let key = signing_key();
    let req = signed_request(&key, intent(&maker_of(&key)));
    let hash = check_create_intent(&config(), &req, NOW).unwrap();
    assert_eq!(hash, compute_intent_hash_hex(&req.intent).unwrap());
}

#[test]
fn expired_intent_is_refused() {
    let key = signing_key();
    let mut i = intent(&maker_of(&key));
    i.deadline = NOW;
    let req = signed_request(&key, i);
    let e = check_create_intent(&config(), &req, NOW).unwrap_err();
    assert_eq!((e.status, e.message.as_str()), (HttpStatus::BadRequest, "deadline must be in the future"));
}

#[test]
fn excessive_fee_is_refused() {
    let key = signing_key();
    let mut i = intent(&maker_of(&key));
    i.max_relayer_fee_bps = 10_001;
    let req = signed_request(&key, i);
    let e = check_create_intent(&config(), &req, NOW).unwrap_err();
    assert_eq!(
        (e.status, e.message.as_str()),
        (HttpStatus::BadRequest, "maxRelayerFeeBps cannot exceed 10000")
    );
    let mut i = intent(&maker_of(&key));
    i.max_relayer_fee_bps = 10_000;
    let req = signed_request(&key, i);
    assert!(check_create_intent(&config(), &req, NOW).is_ok());
}

#[test]
fn zero_amounts_are_refused() {
    let key = signing_key();
    let mut i = intent(&maker_of(&key));
    i.min_amount_out = "0".to_string();
    let req = signed_request(&key, i);
    let e = check_create_intent(&config(), &req, NOW).unwrap_err();
    assert_eq!(
        (e.status, e.message.as_str()),
        (HttpStatus::BadRequest, "amount values must be greater than zero")
    );
}

#[test]
fn unparsable_intent_is_a_bad_request() {
    let key = signing_key();
    let mut req = signed_request(&key, intent(&maker_of(&key)));
    req.intent.receiver = "nowhere".to_string();
    let e = check_create_intent(&config(), &req, NOW).unwrap_err();
    assert_eq!((e.status, e.message.as_str()), (HttpStatus::BadRequest, "invalid address: nowhere"));
    let mut req = signed_request(&key, intent(&maker_of(&key)));
    req.signature = "not hex".to_string();
    let e = check_create_intent(&config(), &req, NOW).unwrap_err();
    assert_eq!((e.status, e.message.as_str()), (HttpStatus::BadRequest, "invalid signature encoding"));
}

#[test]
fn foreign_signature_is_unauthorized() {
    let key = signing_key();
    let other = SigningKey::from_slice(&[8u8; 32]).unwrap();
    let req = signed_request(&other, intent(&maker_of(&key)));
    let e = check_create_intent(&config(), &req, NOW).unwrap_err();
    assert_eq!((e.status, e.message.as_str()), (HttpStatus::Unauthorized, "invalid EIP-712 signature"));
}

#[test]
fn stored_record_is_normalised() {
    let key = signing_key();
    let req = signed_request(&key, intent("0xABCDEF0000000000000000000000000000000000"));
    let rec = new_intent_record(&req, "0xhash".to_string());
    assert_eq!(rec.intent_hash, "0xhash");
    assert_eq!(rec.maker, "0xabcdef0000000000000000000000000000000000");
    assert_eq!(rec.token_in, "0xaaaaaaaaaaaaaaaaaaaaaaaaaaaaaaaaaaaaaaaa");
    assert_eq!(rec.allowed_relayer.as_deref(), Some("0xbbbbbbbbbbbbbbbbbbbbbbbbbbbbbbbbbbbbbbbb"));
    assert_eq!(rec.nonce, -1);
    assert_eq!(rec.max_relayer_fee_bps, 25);
    assert_eq!(rec.status, "PENDING");
    assert_eq!(rec.amount_in, "1000");
    assert_eq!(rec.signature, req.signature);
    let ev = new_intent_event(&req, "0xhash".to_string(), Timestamp { secs: 9, nanos: 0 });
    assert_eq!(ev.kind, "NEW_INTENT");
    assert_eq!(ev.status, IntentStatus::Pending);
    assert_eq!(ev.maker, "0xABCDEF0000000000000000000000000000000000");
    assert_eq!(ev.created_at, Timestamp { secs: 9, nanos: 0 });
}

#[test]
fn listing_defaults_and_cap() {
    let q = ListIntentsQuery { maker: None, status: None, limit: None, offset: None };
    let plan = q.plan();
    assert_eq!((plan.limit, plan.offset, plan.filters.len()), (50, 0, 0));
    assert_eq!(plan.order, " ORDER BY created_at DESC");
    let q = ListIntentsQuery { maker: None, status: None, limit: Some(500), offset: Some(20) };
    let plan = q.plan();
    assert_eq!((plan.limit, plan.offset), (100, 20));
    let q = ListIntentsQuery { maker: None, status: None, limit: Some(7), offset: None };
    assert_eq!(q.plan().limit, 7);
}

#[test]
fn listing_filters_in_order() {
    let q = ListIntentsQuery {
        maker: Some("0xABC".to_string()),
        status: Some(IntentStatusFilter::Cancelled),
        limit: None,
        offset: None,
    };
    let plan = q.plan();
    assert_eq!(plan.filters.len(), 2);
    assert_eq!(
        (plan.filters[0].connector, plan.filters[0].condition, plan.filters[0].value.as_str()),
        (" WHERE ", "maker = ", "0xabc")
    );
    assert_eq!(
        (plan.filters[1].connector, plan.filters[1].condition, plan.filters[1].value.as_str()),
        (" AND ", "status = ", "CANCELLED")
    );
    let q = ListIntentsQuery { maker: None, status: Some(IntentStatusFilter::Pending), limit: None, offset: None };
    let plan = q.plan();
    assert_eq!(plan.filters.len(), 1);
    assert_eq!((plan.filters[0].connector, plan.filters[0].value.as_str()), (" WHERE ", "PENDING"));
}

#[test]
fn cancel_by_owner_in_any_case() {
    let mut s = stored("0xAbCd", IntentStatus::Pending);
    let ev = cancel_intent(&mut s, &CancelIntentRequest { maker: "0xabcd".to_string() }, "0xpath".to_string())
        .unwrap();
    assert_eq!(s.status, IntentStatus::Cancelled);
    assert_eq!(ev.kind, "INTENT_CANCELLED");
    assert_eq!(ev.intent_hash, "0xpath");
    assert_eq!(ev.status, IntentStatus::Cancelled);
    assert_eq!(ev.maker, "0xAbCd");
    assert_eq!(ev.created_at, Timestamp { secs: NOW, nanos: 5 });
}

#[test]
fn cancel_by_stranger_is_forbidden() {
    let mut s = stored("0xAbCd", IntentStatus::Pending);
    let e = cancel_intent(&mut s, &CancelIntentRequest { maker: "0xffff".to_string() }, "h".to_string())
        .unwrap_err();
    assert_eq!((e.status, e.message.as_str()), (HttpStatus::Forbidden, "maker does not match intent owner"));
    assert_eq!(s.status, IntentStatus::Pending);
}

#[test]
fn cancel_happens_only_once() {
    let mut s = stored("0xAbCd", IntentStatus::Pending);
    let req = CancelIntentRequest { maker: "0xABCD".to_string() };
    assert!(cancel_intent(&mut s, &req, "h".to_string()).is_ok());
    let e = cancel_intent(&mut s, &req, "h".to_string()).unwrap_err();
    assert_eq!((e.status, e.message.as_str()), (HttpStatus::Conflict, "intent is not pending"));
    assert_eq!(s.status, IntentStatus::Cancelled);
    let mut executed = stored("0xAbCd", IntentStatus::Executed);
    let e = cancel_intent(&mut executed, &req, "h".to_string()).unwrap_err();
    assert_eq!(e.status, HttpStatus::Conflict);
}

#[test]
fn proposals_need_active_whitelisted_relayer_and_pending_intent() {
    let e = check_relayer_proposal(None, Some("PENDING".to_string())).unwrap_err();
    assert_eq!((e.status, e.message.as_str()), (HttpStatus::Forbidden, "relayer is not whitelisted"));
    let e = check_relayer_proposal(Some(false), Some("PENDING".to_string())).unwrap_err();
    assert_eq!((e.status, e.message.as_str()), (HttpStatus::Forbidden, "relayer is inactive"));
    let e = check_relayer_proposal(Some(true), None).unwrap_err();
    assert_eq!((e.status, e.message.as_str()), (HttpStatus::NotFound, "intent not found"));
    let e = check_relayer_proposal(Some(true), Some("EXECUTED".to_string())).unwrap_err();
    assert_eq!((e.status, e.message.as_str()), (HttpStatus::Conflict, "intent is not pending"));
    let e = check_relayer_proposal(Some(true), Some("pending".to_string())).unwrap_err();
    assert_eq!(e.status, HttpStatus::Conflict);
    assert!(check_relayer_proposal(Some(true), Some("PENDING".to_string())).is_ok());
}

#[test]
fn proposal_record_lowercases_relayer() {
    let req = RelayerProposalRequest {
        intent_hash: "0xhash".to_string(),
        relayer_address: "0xABCD".to_string(),
        proposed_route: "uniswap".to_string(),
        expected_output: "1000".to_string(),
        gas_estimate: "21000".to_string(),
        proposed_fee_bps: 65535,
        signature: "0xsig".to_string(),
    };
    assert_eq!(relayer_lookup_address(&req), "0xabcd");
    let rec = new_proposal_record(&req);
    assert_eq!(rec.relayer_address, "0xabcd");
    assert_eq!(rec.proposed_fee_bps, 65535);
    assert_eq!(rec.intent_hash, "0xhash");
    assert_eq!(rec.proposed_route, "uniswap");
}

#[test]
fn analytics_counts_proposals() {
    let mut s = stored("0x1", IntentStatus::Executed);
    s.executed_by = Some("0xrelayer".to_string());
    let a = analytics_response(s.clone(), 3);
    assert_eq!(a.relayer_proposals_count, 3);
    assert_eq!(a.status, IntentStatus::Executed);
    assert_eq!(a.executed_by.as_deref(), Some("0xrelayer"));
    assert_eq!(a.intent_hash, "0xabc");
    assert_eq!(analytics_response(s, -4).relayer_proposals_count, 0);
}

#[test]
fn status_response_copies_lifecycle() {
    let mut s = stored("0x1", IntentStatus::Expired);
    s.final_amount_out = Some("5".to_string());
    s.executed_at = Some(Timestamp { secs: 1, nanos: 2 });
    let r = s.into_status_response();
    assert_eq!(r.status, IntentStatus::Expired);
    assert_eq!(r.final_amount_out.as_deref(), Some("5"));
    assert_eq!(r.executed_at, Some(Timestamp { secs: 1, nanos: 2 }));
    assert_eq!(r.created_at, Timestamp { secs: NOW, nanos: 5 });
}

#[test]
fn subscription_steps() {
    assert!(matches!(subscription_step(SubscriptionEvent::ClientClosed), SubscriptionAction::Stop));
    assert!(matches!(subscription_step(SubscriptionEvent::ClientMessage), SubscriptionAction::Continue));
    assert!(matches!(subscription_step(SubscriptionEvent::ClientError), SubscriptionAction::Stop));
    match subscription_step(SubscriptionEvent::Broadcast(Some("{}".to_string()))) {
        SubscriptionAction::Send(t) => assert_eq!(t, "{}"),
        _ => panic!("expected a send"),
    }
    assert!(matches!(subscription_step(SubscriptionEvent::Broadcast(None)), SubscriptionAction::Continue));
    assert!(matches!(subscription_step(SubscriptionEvent::BroadcastError), SubscriptionAction::Stop));
    assert!(matches!(subscription_step(SubscriptionEvent::SendFailed), SubscriptionAction::Stop));
}

#[test]
fn missing_intent_is_not_found() {
    let e = intent_relay::api::found_intent(None).unwrap_err();
    assert_eq!((e.status, e.message.as_str()), (HttpStatus::NotFound, "intent not found"));
    let s = stored("0x1", IntentStatus::Pending);
    assert_eq!(intent_relay::api::found_intent(Some(s)).unwrap().id, 42);
}

#[test]
fn only_active_relayers_are_listed() {
    assert_eq!(intent_relay::api::active_relayers(&vec![true, false, true, true, false]), vec![0, 2, 3]);
    assert!(intent_relay::api::active_relayers(&vec![false, false]).is_empty());
    assert!(intent_relay::api::active_relayers(&vec![]).is_empty());
}

#[test]
fn analytics_count_grows_with_each_proposal() {
    let s = stored("0x1", IntentStatus::Pending);
    let before = analytics_response(s.clone(), 4);
    let after = analytics_response(s, 5);
    assert_eq!(after.relayer_proposals_count, before.relayer_proposals_count + 1);
    assert_eq!(after.status, before.status);
}

#[test]
fn created_intent_reads_back_from_its_row() {
    let key = signing_key();
    let req = signed_request(&key, intent(&maker_of(&key).to_uppercase().replacen("0X", "0x", 1)));
    let rec = new_intent_record(&req, "0xhash".to_string());
    let row = intent_relay::models::DbIntentRow {
        id: 1,
        intent_hash: rec.intent_hash.clone(),
        maker: rec.maker.clone(),
        token_in: rec.token_in.clone(),
        token_out: rec.token_out.clone(),
        amount_in: rec.amount_in.clone(),
        min_amount_out: rec.min_amount_out.clone(),
        receiver: rec.receiver.clone(),
        deadline: rec.deadline,
        nonce: 17,
        salt: rec.salt.clone(),
        max_relayer_fee_bps: rec.max_relayer_fee_bps,
        allowed_relayer: rec.allowed_relayer.clone(),
        referral_code: rec.referral_code.clone(),
        partial_fill_allowed: rec.partial_fill_allowed,
        signature: rec.signature.clone(),
        status: rec.status.to_string(),
        created_at: Timestamp { secs: 3, nanos: 4 },
        executed_at: None,
        executed_by: None,
        final_amount_out: None,
        execution_tx_hash: None,
    };
    let s = StoredIntent::from(row);
    assert_eq!(s.status, IntentStatus::Pending);
    assert_eq!(s.intent_hash, "0xhash");
    assert_eq!(s.intent.maker, maker_of(&key));
    assert_eq!(s.intent.max_relayer_fee_bps, req.intent.max_relayer_fee_bps);
    assert_eq!(s.signature, req.signature);
    let q = ListIntentsQuery { maker: Some(req.intent.maker.clone()), status: None, limit: Some(100), offset: None };
    assert_eq!(q.plan().filters[0].value, s.intent.maker);
}
