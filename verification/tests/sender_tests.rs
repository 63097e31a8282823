use helipad::jsonio::JsonField;
use helipad::sender::{
    apply_resolution, build_keysend_request, build_reply_tlv, build_sent_record,
    check_send_response, find_payment, keysend_url, parse_ln_address_response,
    resolve_destination, sha256, SendError, SentPaymentInfo,
};
use helipad::{TLV_KEYSEND, TLV_PODCASTING20};

fn ln_reply() -> String {
    r#"{"status":"OK","tag":"keysend","pubkey":"02ab","customData":[{"customKey":"696969","customValue":"abc"}]}"#
        .to_string()
}

#[test]
fn plain_pubkey_needs_no_resolution() {
    let r = resolve_destination("02abcdef").unwrap();
    assert!(r.is_none());
}

#[test]
fn lightning_address_splits_at_the_at_sign() {
    let r = resolve_destination("alice@example.com").unwrap().unwrap();
    assert_eq!(r.0, "alice");
    assert_eq!(r.1, "example.com");
}

#[test]
fn bad_lightning_address_is_refused() {
    assert!(matches!(
        resolve_destination("alice smith@example.com"),
        Err(SendError::InvalidAddress)
    ));
    assert!(matches!(
        resolve_destination("a@@example.com"),
        Err(SendError::InvalidAddress)
    ));
}

#[test]
fn keysend_url_is_the_well_known_path() {
    assert_eq!(
        keysend_url("alice", "example.com"),
        "https://example.com/.well-known/keysend/alice"
    );
}

#[test]
fn ln_address_response_parses() {
    let resp = parse_ln_address_response(&ln_reply()).unwrap();
    assert_eq!(resp.status, "OK");
    assert_eq!(resp.tag, "keysend");
    assert_eq!(resp.pubkey, "02ab");
    assert_eq!(resp.custom_data.len(), 1);
    assert_eq!(resp.custom_data[0].custom_key, "696969");
    assert_eq!(resp.custom_data[0].custom_value, "abc");
}

#[test]
fn ln_address_response_needs_every_field() {
    assert!(parse_ln_address_response(r#"{"status":"OK","tag":"t","pubkey":"02ab"}"#).is_none());
    assert!(parse_ln_address_response(
        r#"{"status":"OK","tag":"t","pubkey":"02ab","customData":[{"customKey":"1"}]}"#
    )
    .is_none());
    assert!(parse_ln_address_response("not json").is_none());
}

#[test]
fn resolution_overrides_caller_custom_data() {
    let resp = parse_ln_address_response(&ln_reply()).unwrap();
    let caller_value = "caller".to_string();
    let (pubkey, key, value) =
        apply_resolution(Some(123), Some(&caller_value), &resp).unwrap();
    assert_eq!(pubkey, "02ab");
    assert_eq!(key, Some(696969));
    assert_eq!(value, Some("abc".to_string()));
}

#[test]
fn no_custom_data_passes_caller_values_through() {
    let body = r#"{"status":"OK","tag":"t","pubkey":"02cd","customData":[]}"#;
    let resp = parse_ln_address_response(body).unwrap();
    let caller_value = "caller".to_string();
    let (pubkey, key, value) =
        apply_resolution(Some(123), Some(&caller_value), &resp).unwrap();
    assert_eq!(pubkey, "02cd");
    assert_eq!(key, Some(123));
    assert_eq!(value, Some("caller".to_string()));
}

#[test]
fn non_numeric_resolved_key_fails_the_send() {
    let body =
        r#"{"status":"OK","tag":"t","pubkey":"02cd","customData":[{"customKey":"x","customValue":"v"}]}"#;
    let resp = parse_ln_address_response(body).unwrap();
    assert!(matches!(
        apply_resolution(None, None, &resp),
        Err(SendError::BadCustomKey)
    ));
}

#[test]
fn keysend_request_carries_resolved_custom_record() {
    let tlv = r#"{"action":"boost"}"#.to_string();
    let value = "abc".to_string();
    let req = build_keysend_request("02ab", 50, Some(696969), Some(&value), &tlv).unwrap();
    assert_eq!(req.dest, vec![0x02u8, 0xab]);
    assert_eq!(req.amt, 50);
    assert_eq!(req.custom_records.get(&696969).unwrap(), b"abc");
    assert_eq!(
        req.custom_records.get(&TLV_PODCASTING20).unwrap(),
        tlv.as_bytes()
    );
    assert_eq!(req.custom_records.get(&TLV_KEYSEND).unwrap(), &req.preimage);
    assert_eq!(req.custom_records.len(), 3);
}

#[test]
fn caller_pair_passes_through_without_an_address() {
    // A destination without an `@` needs no resolution, so the caller's
    // custom key and value travel unchanged.
    assert!(resolve_destination("02ab").unwrap().is_none());
    let value = "mine".to_string();
    let req = build_keysend_request("02ab", 5, Some(7000), Some(&value), &"{}".to_string())
        .unwrap();
    assert_eq!(req.custom_records.get(&7000).unwrap(), b"mine");
}

#[test]
fn ln_address_error_keeps_its_reason() {
    let err = helipad::sender::LnAddressError("no answer".to_string());
    assert_eq!(err.message(), "no answer");
}

#[test]
fn payment_hash_is_the_digest_of_the_preimage() {
    let tlv = "{}".to_string();
    let req = build_keysend_request("02ab", 1, None, None, &tlv).unwrap();
    assert_eq!(req.preimage.len(), 32);
    let independent = <sha2::Sha256 as sha2::Digest>::digest(&req.preimage).to_vec();
    assert_eq!(req.payment_hash, independent);
}

#[test]
fn sha256_matches_the_known_test_vector() {
    let digest = sha256(b"abc");
    let expected =
        helipad::hexfmt::hex_decode("ba7816bf8f01cfea414140de5dae2223b00361a396177a9cb410ff61f20015ad")
            .unwrap();
    assert_eq!(digest, expected);
}

#[test]
fn custom_key_without_value_is_a_client_error() {
    let tlv = "{}".to_string();
    assert!(matches!(
        build_keysend_request("02ab", 1, Some(7), None, &tlv),
        Err(SendError::MissingCustomValue)
    ));
}

#[test]
fn non_hex_pubkey_is_refused() {
    let tlv = "{}".to_string();
    assert!(matches!(
        build_keysend_request("02ag", 1, None, None, &tlv),
        Err(SendError::BadPubkey)
    ));
    assert!(matches!(
        build_keysend_request("02a", 1, None, None, &tlv),
        Err(SendError::BadPubkey)
    ));
}

#[test]
fn rejected_payment_is_surfaced_distinctly() {
    let err = "no route".to_string();
    match check_send_response(&err, &vec![0u8; 32]) {
        Err(SendError::PaymentRejected(msg)) => assert_eq!(msg, "no route"),
        _ => panic!("a non-empty error string is a rejected payment"),
    }
}

#[test]
fn accepted_payment_hands_back_hex_hash() {
    let ok = check_send_response(&String::new(), &vec![0xde, 0xad]).unwrap();
    assert_eq!(ok, "dead");
}

#[test]
fn find_payment_returns_first_match() {
    let payments = vec![
        SentPaymentInfo {
            payment_hash: "aa".to_string(),
            total_amt_msat: 1,
            total_fees_msat: 1,
            has_route: true,
        },
        SentPaymentInfo {
            payment_hash: "bb".to_string(),
            total_amt_msat: 2,
            total_fees_msat: 2,
            has_route: false,
        },
    ];
    assert_eq!(find_payment(&payments, "bb"), Some(1));
    assert_eq!(find_payment(&payments, "cc"), None);
}

#[test]
fn sent_record_takes_route_totals_when_present() {
    let pubkey = "02ab".to_string();
    let sender = "Me".to_string();
    let message = "hi".to_string();
    let record = build_sent_record(
        &pubkey,
        None,
        None,
        &sender,
        &message,
        "Pod".to_string(),
        "Ep".to_string(),
        21,
        "dead".to_string(),
        Some(4),
        "{}".to_string(),
        Some((21500, 500)),
    );
    assert_eq!(record.total_amt_msat, 21500);
    assert_eq!(record.total_fees_msat, 500);
    assert_eq!(record.payment_hash, "dead");
    assert_eq!(record.reply_boost_index, Some(4));
}

#[test]
fn sent_record_falls_back_to_requested_amount_and_fee_sentinel() {
    let pubkey = "02ab".to_string();
    let sender = "Me".to_string();
    let message = "hi".to_string();
    let record = build_sent_record(
        &pubkey,
        None,
        None,
        &sender,
        &message,
        String::new(),
        String::new(),
        21,
        "beef".to_string(),
        None,
        "{}".to_string(),
        None,
    );
    assert_eq!(record.total_amt_msat, 21000);
    assert_eq!(record.total_fees_msat, -1);
}

#[test]
fn reply_tlv_serializes_the_boost_payload() {
    let text = build_reply_tlv(
        "1.2.3",
        JsonField::Text("Pod".to_string()),
        JsonField::Uint(77),
        "Me",
        "thanks",
        10,
    );
    let v: serde_json::Value = serde_json::from_str(&text).unwrap();
    assert_eq!(v["app_name"].as_str(), Some("Helipad"));
    assert_eq!(v["app_version"].as_str(), Some("1.2.3"));
    assert_eq!(v["podcast"].as_str(), Some("Pod"));
    assert_eq!(v["episode"].as_u64(), Some(77));
    assert_eq!(v["sender_name"].as_str(), Some("Me"));
    assert_eq!(v["message"].as_str(), Some("thanks"));
    assert_eq!(v["action"].as_str(), Some("boost"));
    assert_eq!(v["value_msat_total"].as_u64(), Some(10000));
}
