//! The boost payload decoder: reads the TLV custom-record bytes as UTF-8
//! JSON text and folds the payload's fields into a [`BoostRecord`].
//!
//! Every payload field is optional; a missing field leaves the record as the
//! caller supplied it.  A numeric field may arrive as a number or as a
//! numeric string; a non-numeric or empty string reads as absent.  A payload
//! whose text is not a JSON object, or that holds a non-string value in a
//! string-typed field, leaves the whole record at its pre-decode state, with
//! only the raw text retained.
use crate::boost::{BoostAction, BoostRecord};
use crate::jsonio::{json_field, json_field_of, json_is_object, json_text_is_object, JsonField,
    JsonFieldV};
use crate::numeric::{parses_as_u64, parsed_u64, parse_u64};
use vstd::prelude::*;
use vstd::string::StringExecFns;
use vstd::utf8::{decode_utf8, valid_utf8};

verus! {

/// Default for the payload's action field: an absent action reads as a
/// streaming payment.
pub fn d_action() -> (r: Option<String>)
    ensures
        r matches Some(s) && s@ == "stream"@,
{
    Some(String::from_str("stream"))
}

/// Default for a text field of the payload: absent stays absent.
pub fn d_blank() -> (r: Option<String>)
    ensures
        r is None,
{
    None
}

/// Default for a numeric field of the payload: absent stays absent.
pub fn d_zero() -> (r: Option<u64>)
    ensures
        r is None,
{
    None
}

/// A string-typed payload field that is present but holds neither a string
/// nor a null makes the whole payload malformed.
pub open spec fn str_field_bad(s: Seq<char>, name: Seq<char>) -> bool {
    match json_field_of(s, name) {
        JsonFieldV::Absent | JsonFieldV::Text(_) | JsonFieldV::Null => false,
        _ => true,
    }
}

/// The payloads whose fields the decoder folds in: JSON text with an object
/// at the top level and no ill-typed string field.
pub open spec fn payload_well_formed(s: Seq<char>) -> bool {
    &&& json_is_object(s)
    &&& !str_field_bad(s, "action"@)
    &&& !str_field_bad(s, "app_name"@)
    &&& !str_field_bad(s, "app_version"@)
    &&& !str_field_bad(s, "boost_link"@)
    &&& !str_field_bad(s, "message"@)
    &&& !str_field_bad(s, "name"@)
    &&& !str_field_bad(s, "pubkey"@)
    &&& !str_field_bad(s, "sender_key"@)
    &&& !str_field_bad(s, "sender_name"@)
    &&& !str_field_bad(s, "sender_id"@)
    &&& !str_field_bad(s, "sig_fields"@)
    &&& !str_field_bad(s, "signature"@)
    &&& !str_field_bad(s, "speed"@)
    &&& !str_field_bad(s, "uuid"@)
    &&& !str_field_bad(s, "podcast"@)
    &&& !str_field_bad(s, "guid"@)
    &&& !str_field_bad(s, "url"@)
    &&& !str_field_bad(s, "episode"@)
    &&& !str_field_bad(s, "episode_guid"@)
    &&& !str_field_bad(s, "time"@)
    &&& !str_field_bad(s, "remote_feed_guid"@)
    &&& !str_field_bad(s, "remote_item_guid"@)
}

/// What a numeric payload field contributes: a number kept as it is, a
/// numeric string read in base ten, an empty or non-numeric string read as
/// absent, and a present member of any other kind read as zero.
pub open spec fn num_field_val(s: Seq<char>, name: Seq<char>) -> Option<u64> {
    match json_field_of(s, name) {
        JsonFieldV::NotObject => None,
        JsonFieldV::Absent => None,
        JsonFieldV::Text(t) => if parses_as_u64(t) {
            Some(parsed_u64(t) as u64)
        } else {
            None
        },
        JsonFieldV::Uint(u) => Some(u),
        JsonFieldV::NumOther => None,
        _ => Some(0),
    }
}

/// What a string-typed payload field contributes when the payload is well
/// formed: its text, or nothing when absent or null.
pub open spec fn str_field_val(s: Seq<char>, name: Seq<char>) -> Option<Seq<char>> {
    match json_field_of(s, name) {
        JsonFieldV::Text(t) => Some(t),
        _ => None,
    }
}

/// The action after decoding: absent or empty or `stream` reads as
/// [`BoostAction::Stream`], `boost` as [`BoostAction::Boost`], any other
/// text as [`BoostAction::Unknown`], and a null member leaves the action as
/// it stands.
pub open spec fn action_after(s: Seq<char>, old_action: BoostAction) -> BoostAction {
    match json_field_of(s, "action"@) {
        JsonFieldV::Absent => BoostAction::Stream,
        JsonFieldV::Text(t) => if t.len() == 0 || t == "stream"@ {
            BoostAction::Stream
        } else if t == "boost"@ {
            BoostAction::Boost
        } else {
            BoostAction::Unknown
        },
        _ => old_action,
    }
}

/// The sender after decoding: a non-empty `sender_name` overrides the
/// caller-supplied sender; an empty or missing one does not.
pub open spec fn sender_after(s: Seq<char>, old_sender: Seq<char>) -> Seq<char> {
    match json_field_of(s, "sender_name"@) {
        JsonFieldV::Text(t) => if t.len() > 0 {
            t
        } else {
            old_sender
        },
        _ => old_sender,
    }
}

/// A plain text field after decoding: present text overrides, anything else
/// leaves the caller's value.
pub open spec fn text_field_after(s: Seq<char>, name: Seq<char>, old_val: Seq<char>) -> Seq<char> {
    match json_field_of(s, name) {
        JsonFieldV::Text(t) => t,
        _ => old_val,
    }
}

/// The remote identity the payload asks to resolve: present exactly when
/// both guid fields hold text.
pub open spec fn remote_request(s: Seq<char>) -> Option<(Seq<char>, Seq<char>)> {
    match (json_field_of(s, "remote_feed_guid"@), json_field_of(s, "remote_item_guid"@)) {
        (JsonFieldV::Text(f), JsonFieldV::Text(i)) => Some((f, i)),
        _ => None,
    }
}

/// A payload without an action decodes to `Stream`; the action `boost`
/// decodes to `Boost`; any other non-empty action text decodes to
/// `Unknown` — whatever the record held before.
pub proof fn lemma_action_policy(s: Seq<char>, prior: BoostAction)
    ensures
        json_field_of(s, "action"@) is Absent ==> action_after(s, prior) == BoostAction::Stream,
        json_field_of(s, "action"@) == JsonFieldV::Text("boost"@) ==> action_after(s, prior)
            == BoostAction::Boost,
        (match json_field_of(s, "action"@) {
            JsonFieldV::Text(t) => t.len() > 0 && t != "stream"@ && t != "boost"@,
            _ => false,
        }) ==> action_after(s, prior) == BoostAction::Unknown,
{
    reveal_strlit("stream");
    reveal_strlit("boost");
}

/// A numeric field supplied as a numeric string decodes to the very value
/// it would decode to when supplied as a number.
pub proof fn lemma_numeric_coercion(s1: Seq<char>, s2: Seq<char>, name: Seq<char>)
    requires
        json_field_of(s1, name) is Text,
        parses_as_u64(json_field_of(s1, name)->Text_0),
        json_field_of(s2, name) == JsonFieldV::Uint(
            parsed_u64(json_field_of(s1, name)->Text_0) as u64,
        ),
    ensures
        num_field_val(s1, name) is Some,
        num_field_val(s1, name) == num_field_val(s2, name),
{
}

/// An empty or non-numeric string in a numeric field reads as absent — the
/// field keeps its default and nothing fails.
pub proof fn lemma_non_numeric_string_reads_absent(s: Seq<char>, name: Seq<char>)
    requires
        json_field_of(s, name) is Text,
        !parses_as_u64(json_field_of(s, name)->Text_0),
    ensures
        num_field_val(s, name) is None,
{
}

/// Both records agree on every field but the raw text.
pub open spec fn decode_untouched(a: BoostRecord, b: BoostRecord) -> bool {
    &&& b.index == a.index
    &&& b.time == a.time
    &&& b.value_msat == a.value_msat
    &&& b.value_msat_total == a.value_msat_total
    &&& b.action == a.action
    &&& b.sender == a.sender
    &&& b.app == a.app
    &&& b.message == a.message
    &&& b.podcast == a.podcast
    &&& b.episode == a.episode
    &&& b.remote_podcast == a.remote_podcast
    &&& b.remote_episode == a.remote_episode
    &&& b.payment_info == a.payment_info
}

/// Record `b` is record `a` with a well-formed payload `s` folded in.
pub open spec fn decode_applied(a: BoostRecord, b: BoostRecord, s: Seq<char>) -> bool {
    &&& b.index == a.index
    &&& b.time == a.time
    &&& b.value_msat == (match num_field_val(s, "value_msat"@) {
        Some(v) => v as i64,
        None => a.value_msat,
    })
    &&& b.value_msat_total == (match num_field_val(s, "value_msat_total"@) {
        Some(v) => v as i64,
        None => a.value_msat_total,
    })
    &&& b.action == action_after(s, a.action)
    &&& b.sender@ == sender_after(s, a.sender@)
    &&& b.app@ == text_field_after(s, "app_name"@, a.app@)
    &&& b.message@ == text_field_after(s, "message"@, a.message@)
    &&& b.podcast@ == text_field_after(s, "podcast"@, a.podcast@)
    &&& b.episode@ == text_field_after(s, "episode"@, a.episode@)
    &&& b.remote_podcast == a.remote_podcast
    &&& b.remote_episode == a.remote_episode
    &&& b.payment_info == a.payment_info
}

/// The mathematical value of a returned guid pair.
pub open spec fn opt_pair_view(r: Option<(String, String)>) -> Option<(Seq<char>, Seq<char>)> {
    match r {
        Some(p) => Some((p.0@, p.1@)),
        None => None,
    }
}

/// Everything one decoding step guarantees: record `b` is record `a` after
/// the payload bytes `v` are folded in, and `remote` is the resolution
/// request the payload carries.
pub open spec fn single_decode_post(
    a: BoostRecord,
    b: BoostRecord,
    v: Seq<u8>,
    remote: Option<(Seq<char>, Seq<char>)>,
) -> bool {
    &&& !valid_utf8(v) ==> b == a && remote is None
    &&& valid_utf8(v) ==> b.tlv@ == decode_utf8(v)
    &&& valid_utf8(v) && !payload_well_formed(decode_utf8(v)) ==> decode_untouched(a, b)
        && remote is None
    &&& valid_utf8(v) && payload_well_formed(decode_utf8(v)) ==> decode_applied(
        a,
        b,
        decode_utf8(v),
    ) && remote == remote_request(decode_utf8(v))
}

/// Relies on core::str::from_utf8: it accepts exactly valid UTF-8 and
/// decodes it.
#[verifier::external_body]
fn utf8_to_string(v: &[u8]) -> (r: Option<String>)
    ensures
        r is Some <==> valid_utf8(v@),
        r matches Some(s) ==> s@ == decode_utf8(v@),
{
    match core::str::from_utf8(v) {
        Ok(s) => Some(s.to_string()),
        Err(_) => None,
    }
}

/// The bytes of a custom record read as UTF-8 text, if they are valid
/// UTF-8.
pub fn utf8_text(v: &Vec<u8>) -> (r: Option<String>)
    ensures
        r is Some <==> valid_utf8(v@),
        r matches Some(s) ==> s@ == decode_utf8(v@),
{
    utf8_to_string(v.as_slice())
}

/// Whether one string-typed field is acceptably typed.
fn str_field_ok(tlv: &str, name: &str) -> (r: bool)
    ensures
        r == !str_field_bad(tlv@, name@),
{
    match json_field(tlv, name) {
        JsonField::Absent | JsonField::Text(_) | JsonField::Null => true,
        _ => false,
    }
}

/// Whether the payload text is one the decoder folds in.
pub fn payload_check(tlv: &str) -> (r: bool)
    ensures
        r == payload_well_formed(tlv@),
{
    json_text_is_object(tlv) && str_field_ok(tlv, "action") && str_field_ok(tlv, "app_name")
        && str_field_ok(tlv, "app_version") && str_field_ok(tlv, "boost_link") && str_field_ok(
        tlv,
        "message",
    ) && str_field_ok(tlv, "name") && str_field_ok(tlv, "pubkey") && str_field_ok(
        tlv,
        "sender_key",
    ) && str_field_ok(tlv, "sender_name") && str_field_ok(tlv, "sender_id") && str_field_ok(
        tlv,
        "sig_fields",
    ) && str_field_ok(tlv, "signature") && str_field_ok(tlv, "speed") && str_field_ok(tlv, "uuid")
        && str_field_ok(tlv, "podcast") && str_field_ok(tlv, "guid") && str_field_ok(tlv, "url")
        && str_field_ok(tlv, "episode") && str_field_ok(tlv, "episode_guid") && str_field_ok(
        tlv,
        "time",
    ) && str_field_ok(tlv, "remote_feed_guid") && str_field_ok(tlv, "remote_item_guid")
}

/// Reads one numeric field of the payload.
pub fn read_num_field(tlv: &str, name: &str) -> (r: Option<u64>)
    ensures
        r == num_field_val(tlv@, name@),
{
    match json_field(tlv, name) {
        JsonField::Absent => d_zero(),
        JsonField::Text(t) => parse_u64(t.as_str()),
        JsonField::Uint(u) => Some(u),
        JsonField::NumOther => None,
        JsonField::NotObject => None,
        _ => Some(0),
    }
}

/// Reads one string-typed field of the payload.
pub fn read_str_field(tlv: &str, name: &str) -> (r: Option<String>)
    ensures
        match r {
            Some(t) => str_field_val(tlv@, name@) == Some(t@),
            None => str_field_val(tlv@, name@) is None,
        },
{
    match json_field(tlv, name) {
        JsonField::Text(t) => Some(t),
        JsonField::Absent => d_blank(),
        _ => None,
    }
}

/// Whether two strings hold the same text.
pub(crate) fn string_eq_lit(t: &String, lit: &str) -> (r: bool)
    ensures
        r == (t@ == lit@),
{
    let s = String::from_str(lit);
    *t == s
}

/// Folds a boost payload, handed over as the raw bytes of the TLV custom
/// record, into the record.
///
/// The raw text is always retained in the record's `tlv` field, even when
/// the structured fields cannot be read; bytes that are not UTF-8 leave the
/// record untouched.  The result is the remote podcast/episode guid pair the
/// payload asks to resolve, if any.
pub fn parse_podcast_tlv(boost: &mut BoostRecord, val: &Vec<u8>) -> (remote: Option<
    (String, String),
>)
    ensures
        single_decode_post(*old(boost), *final(boost), val@, opt_pair_view(remote)),
{
    let text = match utf8_to_string(val.as_slice()) {
        Some(t) => t,
        None => { return None; },
    };
    boost.tlv = text.clone();
    if !payload_check(text.as_str()) {
        return None;
    }
    if let Some(v) = read_num_field(text.as_str(), "value_msat") {
        boost.value_msat = #[verifier::truncate] (v as i64);
    }
    if let Some(v) = read_num_field(text.as_str(), "value_msat_total") {
        boost.value_msat_total = #[verifier::truncate] (v as i64);
    }
    let action_text = match json_field(text.as_str(), "action") {
        JsonField::Absent => d_action(),
        JsonField::Text(t) => Some(t),
        _ => None,
    };
    if let Some(t) = action_text {
        proof {
            reveal_strlit("stream");
            reveal_strlit("boost");
        }
        boost.action = if t.as_str().is_empty() || string_eq_lit(&t, "stream") {
            BoostAction::Stream
        } else if string_eq_lit(&t, "boost") {
            BoostAction::Boost
        } else {
            BoostAction::Unknown
        };
    }
    if let Some(t) = read_str_field(text.as_str(), "sender_name") {
        if !t.as_str().is_empty() {
            boost.sender = t;
        }
    }
    if let Some(t) = read_str_field(text.as_str(), "message") {
        boost.message = t;
    }
    if let Some(t) = read_str_field(text.as_str(), "app_name") {
        boost.app = t;
    }
    if let Some(t) = read_str_field(text.as_str(), "podcast") {
        boost.podcast = t;
    }
    if let Some(t) = read_str_field(text.as_str(), "episode") {
        boost.episode = t;
    }
    let feed = read_str_field(text.as_str(), "remote_feed_guid");
    let item = read_str_field(text.as_str(), "remote_item_guid");
    match (feed, item) {
        (Some(f), Some(i)) => Some((f, i)),
        _ => None,
    }
}

/// Writes a resolved remote identity into the record.
pub fn apply_remote_identity(boost: &mut BoostRecord, podcast: String, episode: String)
    ensures
        *final(boost) == (BoostRecord {
            remote_podcast: Some(podcast),
            remote_episode: Some(episode),
            ..*old(boost)
        }),
{
    boost.remote_podcast = Some(podcast);
    boost.remote_episode = Some(episode);
}

} // verus!
