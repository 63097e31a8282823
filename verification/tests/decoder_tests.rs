use helipad::boost::{BoostAction, BoostRecord};
use helipad::decoder::{d_action, d_blank, d_zero, parse_podcast_tlv, payload_check};

fn fresh() -> BoostRecord {
    BoostRecord::empty_at(1, 100, 5000, 5000)
}

#[test]
fn absent_action_decodes_to_stream() {
    let mut boost = fresh();
    let payload = br#"{"message":"hi"}"#.to_vec();
    parse_podcast_tlv(&mut boost, &payload);
    assert_eq!(boost.action, BoostAction::Stream);
    assert_eq!(boost.message, "hi");
}

#[test]
fn boost_action_decodes_to_boost() {
    let mut boost = fresh();
    let payload = br#"{"action":"boost"}"#.to_vec();
    parse_podcast_tlv(&mut boost, &payload);
    assert_eq!(boost.action, BoostAction::Boost);
}

#[test]
fn stream_action_decodes_to_stream() {
    let mut boost = fresh();
    let payload = br#"{"action":"stream"}"#.to_vec();
    parse_podcast_tlv(&mut boost, &payload);
    assert_eq!(boost.action, BoostAction::Stream);
}

#[test]
fn other_action_decodes_to_unknown() {
    let mut boost = fresh();
    let payload = br#"{"action":"zap"}"#.to_vec();
    parse_podcast_tlv(&mut boost, &payload);
    assert_eq!(boost.action, BoostAction::Unknown);
}

#[test]
fn empty_action_decodes_to_stream() {
    let mut boost = fresh();
    let payload = br#"{"action":""}"#.to_vec();
    parse_podcast_tlv(&mut boost, &payload);
    assert_eq!(boost.action, BoostAction::Stream);
}

#[test]
fn numeric_string_and_number_decode_alike() {
    let mut a = fresh();
    let mut b = fresh();
    parse_podcast_tlv(&mut a, &br#"{"value_msat":"9000"}"#.to_vec());
    parse_podcast_tlv(&mut b, &br#"{"value_msat":9000}"#.to_vec());
    assert_eq!(a.value_msat, 9000);
    assert_eq!(b.value_msat, 9000);
    assert_eq!(a.value_msat, b.value_msat);
}

#[test]
fn non_numeric_string_keeps_default() {
    let mut boost = fresh();
    parse_podcast_tlv(&mut boost, &br#"{"value_msat":"lots"}"#.to_vec());
    assert_eq!(boost.value_msat, 5000);
}

#[test]
fn empty_numeric_string_keeps_default() {
    let mut boost = fresh();
    parse_podcast_tlv(&mut boost, &br#"{"value_msat":""}"#.to_vec());
    assert_eq!(boost.value_msat, 5000);
}

#[test]
fn null_numeric_field_reads_as_zero() {
    let mut boost = fresh();
    parse_podcast_tlv(&mut boost, &br#"{"value_msat":null}"#.to_vec());
    assert_eq!(boost.value_msat, 0);
}

#[test]
fn empty_sender_name_does_not_override() {
    let mut boost = fresh();
    boost.sender = "Preset".to_string();
    parse_podcast_tlv(&mut boost, &br#"{"sender_name":""}"#.to_vec());
    assert_eq!(boost.sender, "Preset");
}

#[test]
fn sender_name_overrides() {
    let mut boost = fresh();
    boost.sender = "Preset".to_string();
    parse_podcast_tlv(&mut boost, &br#"{"sender_name":"Alice"}"#.to_vec());
    assert_eq!(boost.sender, "Alice");
}

#[test]
fn malformed_json_keeps_defaults_but_raw_text() {
    let mut boost = fresh();
    let text = "not json at all";
    parse_podcast_tlv(&mut boost, &text.as_bytes().to_vec());
    assert_eq!(boost.tlv, text);
    assert_eq!(boost.action, BoostAction::Unset);
    assert_eq!(boost.message, "");
    assert_eq!(boost.value_msat, 5000);
}

#[test]
fn ill_typed_string_field_abandons_whole_payload() {
    let mut boost = fresh();
    let text = r#"{"sender_name":42,"message":"hi"}"#;
    parse_podcast_tlv(&mut boost, &text.as_bytes().to_vec());
    assert_eq!(boost.tlv, text);
    assert_eq!(boost.message, "");
    assert_eq!(boost.action, BoostAction::Unset);
    assert!(!payload_check(text));
}

#[test]
fn invalid_utf8_leaves_record_untouched() {
    let mut boost = fresh();
    let payload = vec![0xffu8, 0xfe, 0x01];
    let remote = parse_podcast_tlv(&mut boost, &payload);
    assert!(remote.is_none());
    assert_eq!(boost.tlv, "");
    assert_eq!(boost.action, BoostAction::Unset);
}

#[test]
fn remote_guids_are_requested_together_only() {
    let mut boost = fresh();
    let remote = parse_podcast_tlv(
        &mut boost,
        &br#"{"remote_feed_guid":"feed-1","remote_item_guid":"item-1"}"#.to_vec(),
    );
    assert_eq!(remote, Some(("feed-1".to_string(), "item-1".to_string())));

    let mut boost = fresh();
    let remote = parse_podcast_tlv(&mut boost, &br#"{"remote_feed_guid":"feed-1"}"#.to_vec());
    assert!(remote.is_none());
}

#[test]
fn message_app_podcast_episode_carry_over() {
    let mut boost = fresh();
    let payload =
        br#"{"message":"great show","app_name":"Castr","podcast":"My Pod","episode":"Ep 1"}"#;
    parse_podcast_tlv(&mut boost, &payload.to_vec());
    assert_eq!(boost.message, "great show");
    assert_eq!(boost.app, "Castr");
    assert_eq!(boost.podcast, "My Pod");
    assert_eq!(boost.episode, "Ep 1");
}

#[test]
fn defaults_are_the_serde_defaults() {
    assert_eq!(d_action(), Some("stream".to_string()));
    assert_eq!(d_blank(), None);
    assert_eq!(d_zero(), None);
}

#[test]
fn huge_value_wraps_like_a_cast() {
    let mut boost = fresh();
    parse_podcast_tlv(&mut boost, &br#"{"value_msat":18446744073709551615}"#.to_vec());
    assert_eq!(boost.value_msat, -1);
}
