//! The outbound keysend pipeline: resolving a destination, generating the
//! pre-image and payment hash, assembling the custom-record map, judging
//! the node's answer, and building the sent-boost record.
//!
//! The node call itself and the address fetch are outside work: the caller
//! hands their results back in as plain values.
use crate::boost::SentBoostRecord;
use crate::decoder::string_eq_lit;
use crate::hexfmt::{hex_bytes_of, hex_decode, hex_encode, hex_str_of, is_hex_text};
use crate::jsonio::{json_array_len, json_array_len_of, json_elem_field, json_elem_field_of,
    json_field_of, json_object_pretty, json_object_text_of, entries_view, JsonField, JsonFieldV};
use crate::numeric::{parses_as_u64, parsed_u64, parse_u64};
use crate::TLV_KEYSEND;
use crate::TLV_PODCASTING20;
use std::collections::HashMap;
use vstd::prelude::*;
use vstd::string::{StrSliceExecFns, StringExecFns};
use vstd::utf8::encode_utf8;

verus! {

broadcast use vstd::std_specs::hash::group_hash_axioms;

/// Why a send failed, so a caller can tell bad input from a failed
/// resolution, an unreachable node, and a payment the node rejected.
#[derive(Debug)]
pub enum SendError {
    /// The destination looks like a lightning address but is not a valid
    /// one.
    InvalidAddress,
    /// The address fetch failed or its reply did not have the expected
    /// shape.
    ResolutionFailed,
    /// The resolved custom key is not an unsigned number.
    BadCustomKey,
    /// A custom key was given without a custom value.
    MissingCustomValue,
    /// The destination public key is not even-length lowercase hex text.
    BadPubkey,
    /// The node could not be reached.
    NodeUnavailable,
    /// The node answered and rejected the payment, with its own words.
    PaymentRejected(String),
    /// The payment went out but was not found among the node's payments.
    PaymentNotFound,
}

/// A reply to a lightning-address lookup: the routable key and optional
/// custom data for the destination.
pub struct LnAddressResponse {
    pub status: String,
    pub tag: String,
    pub pubkey: String,
    pub custom_data: Vec<LnAddressCustomData>,
}

/// One custom key/value pair of a lightning-address reply.
pub struct LnAddressCustomData {
    pub custom_key: String,
    pub custom_value: String,
}

/// A failure while resolving a lightning address, with its reason in
/// words.
#[derive(Debug)]
pub struct LnAddressError(pub String);

impl LnAddressError {
    /// The failure's reason.
    pub fn message(&self) -> (r: &String)
        ensures
            r == &self.0,
    {
        &self.0
    }
}

/// Everything the node needs to send one keysend payment.
pub struct KeysendRequest {
    /// The destination key as raw bytes.
    pub dest: Vec<u8>,
    /// The amount in satoshis.
    pub amt: i64,
    /// The SHA-256 digest of the pre-image.
    pub payment_hash: Vec<u8>,
    /// The pre-image the receiver uses to verify the payment hash.
    pub preimage: Vec<u8>,
    /// The custom records travelling with the payment, by TLV type.
    pub custom_records: HashMap<u64, Vec<u8>>,
}

/// What the node reported of one of its payments, as the reconciliation
/// step consumes it.
pub struct SentPaymentInfo {
    pub payment_hash: String,
    pub total_amt_msat: i64,
    pub total_fees_msat: i64,
    pub has_route: bool,
}

/// Relies on rand::rngs::ThreadRng::fill_bytes: 32 bytes drawn from the
/// thread's generator; nothing is promised of their values.
#[verifier::external_body]
fn random_preimage() -> (r: Vec<u8>)
    ensures
        r@.len() == 32,
{
    let mut buf = [0u8; 32];
    rand::RngCore::fill_bytes(&mut rand::thread_rng(), &mut buf);
    buf.to_vec()
}

/// The SHA-256 digest of a byte string; its value is pinned only by the
/// sha2 crate's implementation.
pub uninterp spec fn sha256_of(b: Seq<u8>) -> Seq<u8>;

/// Relies on sha2::Sha256 through sha2::Digest::digest: the 32-byte
/// SHA-256 digest, a function of the input bytes alone.
#[verifier::external_body]
pub fn sha256(bytes: &[u8]) -> (r: Vec<u8>)
    ensures
        r@ == sha256_of(bytes@),
        r@.len() == 32,
{
    let digest = <sha2::Sha256 as sha2::Digest>::digest(bytes);
    digest.to_vec()
}

/// Whether the resolved pair writes its value under key `k`; the pair is
/// written last, so it wins over the fixed records on a clash.
pub open spec fn custom_pair_at(
    custom_key: Option<u64>,
    custom_value: Option<Seq<char>>,
    k: u64,
) -> bool {
    custom_key == Some(k) && custom_value is Some
}

/// The custom-record map a request must carry: the pre-image under the
/// keysend type, the payload text's bytes under the boost type, and the
/// resolved custom value, if a complete pair was given, under its own key —
/// and nothing else.
pub open spec fn expected_records(
    m: Map<u64, Vec<u8>>,
    preimage: Seq<u8>,
    tlv_text: Seq<char>,
    custom_key: Option<u64>,
    custom_value: Option<Seq<char>>,
) -> bool {
    &&& m.contains_key(TLV_KEYSEND) && (!custom_pair_at(custom_key, custom_value, TLV_KEYSEND)
        ==> m[TLV_KEYSEND]@ == preimage)
    &&& m.contains_key(TLV_PODCASTING20) && (!custom_pair_at(
        custom_key,
        custom_value,
        TLV_PODCASTING20,
    ) ==> m[TLV_PODCASTING20]@ == encode_utf8(tlv_text))
    &&& (match (custom_key, custom_value) {
        (Some(k), Some(v)) => m.contains_key(k) && m[k]@ == encode_utf8(v),
        _ => true,
    })
    &&& forall|k: u64| #[trigger]
        m.contains_key(k) ==> k == TLV_KEYSEND || k == TLV_PODCASTING20 || custom_pair_at(
            custom_key,
            custom_value,
            k,
        )
}

/// Builds one keysend request: a fresh 32-byte pre-image, its SHA-256
/// digest as the payment hash, the destination key read from lowercase hex
/// text, and the custom-record map [`expected_records`] describes.
///
/// A custom key without a custom value is a client error; a destination
/// that is not even-length lowercase hex text is a bad public key.
pub fn build_keysend_request(
    dest_pubkey_hex: &str,
    sats: i64,
    custom_key: Option<u64>,
    custom_value: Option<&String>,
    tlv_text: &String,
) -> (r: Result<KeysendRequest, SendError>)
    ensures
        r matches Err(SendError::MissingCustomValue) <==> custom_key is Some && custom_value
            is None,
        r matches Err(SendError::BadPubkey) <==> !(custom_key is Some && custom_value is None)
            && !is_hex_text(dest_pubkey_hex@),
        r is Ok <==> !(custom_key is Some && custom_value is None) && is_hex_text(
            dest_pubkey_hex@,
        ),
        r matches Ok(req) ==> ({
            &&& req.dest@ == hex_bytes_of(dest_pubkey_hex@)
            &&& req.amt == sats
            &&& req.preimage@.len() == 32
            &&& req.payment_hash@ == sha256_of(req.preimage@)
            &&& expected_records(
                req.custom_records@,
                req.preimage@,
                tlv_text@,
                custom_key,
                (match custom_value {
                    Some(v) => Some(v@),
                    None => None,
                }),
            )
        }),
{
    if custom_key.is_some() && custom_value.is_none() {
        return Err(SendError::MissingCustomValue);
    }
    let dest = match hex_decode(dest_pubkey_hex) {
        Some(d) => d,
        None => { return Err(SendError::BadPubkey) },
    };
    let preimage = random_preimage();
    let payment_hash = sha256(preimage.as_slice());
    let mut custom_records: HashMap<u64, Vec<u8>> = HashMap::new();
    let preimage_copy = copy_bytes(&preimage);
    custom_records.insert(TLV_KEYSEND, preimage_copy);
    custom_records.insert(TLV_PODCASTING20, tlv_text.as_str().as_bytes_vec());
    if let (Some(k), Some(v)) = (custom_key, custom_value) {
        custom_records.insert(k, v.as_str().as_bytes_vec());
    }
    Ok(KeysendRequest { dest, amt: sats, payment_hash, preimage, custom_records })
}

/// A copy of a byte string.
fn copy_bytes(v: &Vec<u8>) -> (r: Vec<u8>)
    ensures
        r@ == v@,
{
    let mut out: Vec<u8> = Vec::new();
    let mut i: usize = 0;
    while i < v.len()
        invariant
            0 <= i <= v@.len(),
            out@ == v@.take(i as int),
        decreases v@.len() - i,
    {
        out.push(v[i]);
        proof {
            assert(out@ =~= v@.take(i + 1));
        }
        i = i + 1;
    }
    proof {
        assert(v@.take(v@.len() as int) =~= v@);
    }
    out
}

/// Judges the node's immediate answer: a non-empty error string is a
/// rejected payment, anything else is a success whose hash is handed back
/// as lowercase hex text for reconciliation.
pub fn check_send_response(payment_error: &String, payment_hash: &Vec<u8>) -> (r: Result<
    String,
    SendError,
>)
    ensures
        r is Err <==> payment_error@.len() > 0,
        r matches Err(e) ==> e matches SendError::PaymentRejected(msg) && msg@ == payment_error@,
        r matches Ok(h) ==> h@ == hex_str_of(payment_hash@),
{
    if payment_error.as_str().is_empty() {
        Ok(hex_encode(payment_hash.as_slice()))
    } else {
        Err(SendError::PaymentRejected(payment_error.clone()))
    }
}

/// The position of the first listed payment carrying the given hash text.
pub fn find_payment(payments: &Vec<SentPaymentInfo>, hash_hex: &str) -> (r: Option<usize>)
    ensures
        match r {
            Some(i) => i < payments@.len() && payments@[i as int].payment_hash@ == hash_hex@
                && (forall|j: int| 0 <= j < i ==> payments@[j].payment_hash@ != hash_hex@),
            None => forall|j: int|
                0 <= j < payments@.len() ==> payments@[j].payment_hash@ != hash_hex@,
        },
{
    let mut i: usize = 0;
    while i < payments.len()
        invariant
            0 <= i <= payments@.len(),
            forall|j: int| 0 <= j < i ==> payments@[j].payment_hash@ != hash_hex@,
        decreases payments@.len() - i,
    {
        if string_eq_str(&payments[i].payment_hash, hash_hex) {
            return Some(i);
        }
        i = i + 1;
    }
    None
}

/// Whether a string holds the given text.
fn string_eq_str(a: &String, b: &str) -> (r: bool)
    ensures
        r == (a@ == b@),
{
    let other = String::from_str(b);
    *a == other
}

/// Builds the record of one sent boost.  The amount is the requested
/// satoshis in millisatoshis and the fee is the "unknown" sentinel, unless
/// the node reported route totals, which then take precedence.
pub fn build_sent_record(
    pub_key: &String,
    custom_key: Option<u64>,
    custom_value: Option<&String>,
    sender: &String,
    message: &String,
    podcast: String,
    episode: String,
    sats: i64,
    payment_hash_hex: String,
    reply_boost_index: Option<u64>,
    tlv_text: String,
    route: Option<(i64, i64)>,
) -> (r: SentBoostRecord)
    requires
        0 <= sats <= i64::MAX / 1000,
    ensures
        r.pubkey@ == pub_key@,
        r.custom_key == custom_key,
        (match (r.custom_value, custom_value) {
            (Some(a), Some(b)) => a@ == b@,
            (None, None) => true,
            _ => false,
        }),
        r.sender@ == sender@,
        r.message@ == message@,
        r.podcast == podcast,
        r.episode == episode,
        (match route {
            Some(t) => r.total_amt_msat == t.0 && r.total_fees_msat == t.1,
            None => r.total_amt_msat == sats * 1000 && r.total_fees_msat == -1,
        }),
        r.payment_hash == payment_hash_hex,
        r.reply_boost_index == reply_boost_index,
        r.tlv == tlv_text,
{
    let mut record = SentBoostRecord {
        pubkey: pub_key.clone(),
        custom_key,
        custom_value: match custom_value {
            Some(v) => Some(v.clone()),
            None => None,
        },
        sender: sender.clone(),
        message: message.clone(),
        podcast,
        episode,
        total_amt_msat: sats * 1000,
        total_fees_msat: -1,
        payment_hash: payment_hash_hex,
        reply_boost_index,
        tlv: tlv_text,
    };
    if let Some(t) = route {
        record.total_amt_msat = t.0;
        record.total_fees_msat = t.1;
    }
    record
}

/// Whether the text is email-shaped; pinned only by the outside address
/// check.
pub uninterp spec fn email_valid(s: Seq<char>) -> bool;

/// Relies on email_address::EmailAddress::is_valid: whether the text is a
/// syntactically valid email-shaped address.
#[verifier::external_body]
fn email_shaped(address: &str) -> (r: bool)
    ensures
        r == email_valid(address@),
{
    email_address::EmailAddress::is_valid(address)
}

/// Whether the text holds an `@` anywhere.
pub open spec fn has_at(s: Seq<char>) -> bool {
    exists|k: int| 0 <= k < s.len() && s[k] == '@'
}

/// The position of the text's only `@`, when it has exactly one.
pub open spec fn lone_at_pos(s: Seq<char>) -> Option<int> {
    if exists|k: int|
        0 <= k < s.len() && s[k] == '@' && (forall|j: int|
            0 <= j < s.len() && j != k ==> s[j] != '@') {
        Some(
            choose|k: int|
                0 <= k < s.len() && s[k] == '@' && (forall|j: int|
                    0 <= j < s.len() && j != k ==> s[j] != '@'),
        )
    } else {
        None
    }
}

/// How the send path reads its destination: text without an `@` is already
/// a public key; email-shaped text with a single `@` names an address to
/// resolve, split at the `@`; anything else with an `@` is invalid.
pub fn resolve_destination(dest: &str) -> (r: Result<Option<(String, String)>, SendError>)
    ensures
        !has_at(dest@) ==> (r matches Ok(p) && p is None),
        has_at(dest@) && !(email_valid(dest@) && lone_at_pos(dest@) is Some) ==> (r matches Err(e)
            && e is InvalidAddress),
        has_at(dest@) && email_valid(dest@) && lone_at_pos(dest@) is Some ==> ({
            let k = lone_at_pos(dest@)->Some_0;
            r matches Ok(p) && p matches Some(parts) && parts.0@ == dest@.subrange(0, k)
                && parts.1@ == dest@.subrange(k + 1, dest@.len() as int)
        }),
{
    let n = dest.unicode_len();
    let mut i: usize = 0;
    let mut at_pos: usize = n;
    while i < n
        invariant
            0 <= i <= n,
            n == dest@.len(),
            at_pos <= n,
            at_pos == n ==> forall|j: int| 0 <= j < i ==> dest@[j] != '@',
            at_pos < n ==> at_pos < i && dest@[at_pos as int] == '@' && (forall|j: int|
                0 <= j < at_pos ==> dest@[j] != '@'),
        decreases n - i,
    {
        if at_pos == n && dest.get_char(i) == '@' {
            at_pos = i;
        }
        i = i + 1;
    }
    if at_pos == n {
        proof {
            assert(!has_at(dest@)) by {
                assert(forall|k: int| 0 <= k < dest@.len() ==> dest@[k] != '@');
            }
        }
        return Ok(None);
    }
    if !email_shaped(dest) {
        return Err(SendError::InvalidAddress);
    }
    let mut j: usize = at_pos + 1;
    while j < n
        invariant
            at_pos < j <= n,
            n == dest@.len(),
            dest@[at_pos as int] == '@',
            forall|t: int| 0 <= t < at_pos ==> dest@[t] != '@',
            forall|t: int| at_pos < t < j ==> dest@[t] != '@',
        decreases n - j,
    {
        if dest.get_char(j) == '@' {
            proof {
                assert(has_at(dest@));
                assert(lone_at_pos(dest@) is None) by {
                    assert(dest@[at_pos as int] == '@');
                    assert(dest@[j as int] == '@');
                    assert(at_pos != j);
                }
            }
            return Err(SendError::InvalidAddress);
        }
        j = j + 1;
    }
    let local = dest.substring_char(0, at_pos).to_owned();
    let domain = dest.substring_char(at_pos + 1, n).to_owned();
    proof {
        let ghost p = at_pos as int;
        assert(dest@[p] == '@' && (forall|t: int| 0 <= t < dest@.len() && t != p ==> dest@[t]
            != '@'));
        assert(lone_at_pos(dest@) is Some);
        let ghost k = lone_at_pos(dest@)->Some_0;
        assert(k == p) by {
            if k != p {
                assert(dest@[p] != '@');
            }
        }
    }
    Ok(Some((local, domain)))
}

/// The well-known address at which a lightning address's keysend data is
/// published.
pub fn keysend_url(local: &str, domain: &str) -> (r: String)
    ensures
        r@ == "https://"@ + domain@ + "/.well-known/keysend/"@ + local@,
{
    let mut url = String::from_str("https://");
    url.append(domain);
    url.append("/.well-known/keysend/");
    url.append(local);
    url
}

/// Whether the reply's custom-data entry at `index` carries text under
/// both of its keys.
pub open spec fn custom_entry_ok(s: Seq<char>, index: nat) -> bool {
    &&& json_elem_field_of(s, "customData"@, index, "customKey"@) is Text
    &&& json_elem_field_of(s, "customData"@, index, "customValue"@) is Text
}

/// The reply's custom-data entry at `index`.
pub open spec fn custom_entry(s: Seq<char>, index: nat) -> (Seq<char>, Seq<char>) {
    (
        (match json_elem_field_of(s, "customData"@, index, "customKey"@) {
            JsonFieldV::Text(t) => t,
            _ => Seq::empty(),
        }),
        (match json_elem_field_of(s, "customData"@, index, "customValue"@) {
            JsonFieldV::Text(t) => t,
            _ => Seq::empty(),
        }),
    )
}

/// The replies a lightning-address lookup accepts: `status`, `tag` and
/// `pubkey` as text, and a `customData` array whose every entry carries a
/// text key and a text value.
pub open spec fn ln_reply_ok(s: Seq<char>) -> bool {
    &&& json_field_of(s, "status"@) is Text
    &&& json_field_of(s, "tag"@) is Text
    &&& json_field_of(s, "pubkey"@) is Text
    &&& json_array_len_of(s, "customData"@) is Some
    &&& forall|i: nat|
        i < json_array_len_of(s, "customData"@)->Some_0 ==> #[trigger] custom_entry_ok(s, i)
}

/// Reads a lightning-address reply, accepting exactly the texts
/// [`ln_reply_ok`] describes and carrying every field over as it stands.
pub fn parse_ln_address_response(body: &str) -> (r: Option<LnAddressResponse>)
    ensures
        r is Some <==> ln_reply_ok(body@),
        r matches Some(resp) ==> ({
            &&& JsonFieldV::Text(resp.status@) == json_field_of(body@, "status"@)
            &&& JsonFieldV::Text(resp.tag@) == json_field_of(body@, "tag"@)
            &&& JsonFieldV::Text(resp.pubkey@) == json_field_of(body@, "pubkey"@)
            &&& Some(resp.custom_data@.len() as nat) == json_array_len_of(body@, "customData"@)
            &&& forall|i: int|
                0 <= i < resp.custom_data@.len() ==> (#[trigger] resp.custom_data@[i].custom_key@,
                resp.custom_data@[i].custom_value@) == custom_entry(body@, i as nat)
        }),
{
    let status = match crate::jsonio::json_field(body, "status") {
        JsonField::Text(t) => t,
        _ => { return None; },
    };
    let tag = match crate::jsonio::json_field(body, "tag") {
        JsonField::Text(t) => t,
        _ => { return None; },
    };
    let pubkey = match crate::jsonio::json_field(body, "pubkey") {
        JsonField::Text(t) => t,
        _ => { return None; },
    };
    let len = match json_array_len(body, "customData") {
        Some(l) => l,
        None => { return None; },
    };
    let mut custom_data: Vec<LnAddressCustomData> = Vec::new();
    let mut i: usize = 0;
    while i < len
        invariant
            0 <= i <= len,
            Some(len as nat) == json_array_len_of(body@, "customData"@),
            custom_data@.len() == i,
            forall|j: nat| j < i ==> #[trigger] custom_entry_ok(body@, j),
            forall|j: int|
                0 <= j < i ==> (#[trigger] custom_data@[j].custom_key@,
                custom_data@[j].custom_value@) == custom_entry(body@, j as nat),
        decreases len - i,
    {
        let key = match json_elem_field(body, "customData", i, "customKey") {
            JsonField::Text(t) => t,
            _ => {
                proof {
                    assert(!custom_entry_ok(body@, i as nat));
                }
                return None;
            },
        };
        let value = match json_elem_field(body, "customData", i, "customValue") {
            JsonField::Text(t) => t,
            _ => {
                proof {
                    assert(!custom_entry_ok(body@, i as nat));
                }
                return None;
            },
        };
        custom_data.push(LnAddressCustomData { custom_key: key, custom_value: value });
        i = i + 1;
    }
    Some(LnAddressResponse { status, tag, pubkey, custom_data })
}

/// Applies an address resolution to the caller's destination: the resolved
/// key replaces the destination, and when the reply carries custom data
/// its first entry's key and value replace whatever the caller supplied —
/// a first entry whose key is not an unsigned number fails the send.
pub fn apply_resolution(
    custom_key: Option<u64>,
    custom_value: Option<&String>,
    resp: &LnAddressResponse,
) -> (r: Result<(String, Option<u64>, Option<String>), SendError>)
    ensures
        resp.custom_data@.len() == 0 ==> (r matches Ok(t) && t.0@ == resp.pubkey@ && t.1
            == custom_key && (match (t.2, custom_value) {
            (Some(a), Some(b)) => a@ == b@,
            (None, None) => true,
            _ => false,
        })),
        resp.custom_data@.len() > 0 ==> ({
            let entry = resp.custom_data@[0];
            if parses_as_u64(entry.custom_key@) {
                r matches Ok(t) && t.0@ == resp.pubkey@ && t.1 == Some(
                    parsed_u64(entry.custom_key@) as u64,
                ) && (t.2 matches Some(v) && v@ == entry.custom_value@)
            } else {
                r matches Err(e) && e is BadCustomKey
            }
        }),
{
    let pubkey = resp.pubkey.clone();
    if resp.custom_data.len() > 0 {
        let entry = &resp.custom_data[0];
        let key = match parse_u64(entry.custom_key.as_str()) {
            Some(k) => k,
            None => { return Err(SendError::BadCustomKey) },
        };
        Ok((pubkey, Some(key), Some(entry.custom_value.clone())))
    } else {
        Ok(
            (
                pubkey,
                custom_key,
                match custom_value {
                    Some(v) => Some(v.clone()),
                    None => None,
                },
            ),
        )
    }
}

/// The members of a reply boost payload, in the order they are written.
pub open spec fn reply_entries(
    app_version: Seq<char>,
    podcast: JsonFieldV,
    episode: JsonFieldV,
    sender: Seq<char>,
    message: Seq<char>,
    value_msat_total: u64,
) -> Seq<(Seq<char>, JsonFieldV)> {
    seq![
        ("app_name"@, JsonFieldV::Text("Helipad"@)),
        ("app_version"@, JsonFieldV::Text(app_version)),
        ("podcast"@, podcast),
        ("episode"@, episode),
        ("sender_name"@, JsonFieldV::Text(sender)),
        ("message"@, JsonFieldV::Text(message)),
        ("action"@, JsonFieldV::Text("boost"@)),
        ("value_msat_total"@, JsonFieldV::Uint(value_msat_total)),
    ]
}

/// Serializes the payload of a reply boost: the fixed application name,
/// the given version, the podcast and episode carried over from the boost
/// being answered, the sender and message, the `boost` action, and the
/// amount in millisatoshis.
pub fn build_reply_tlv(
    app_version: &str,
    podcast: JsonField,
    episode: JsonField,
    sender: &str,
    message: &str,
    sats: i64,
) -> (r: String)
    requires
        0 <= sats <= i64::MAX / 1000,
    ensures
        r@ == json_object_text_of(
            reply_entries(
                app_version@,
                podcast@,
                episode@,
                sender@,
                message@,
                (sats * 1000) as u64,
            ),
        ),
{
    let total: u64 = (sats * 1000) as u64;
    let mut entries: Vec<(String, JsonField)> = Vec::new();
    entries.push((String::from_str("app_name"), JsonField::Text(String::from_str("Helipad"))));
    entries.push((String::from_str("app_version"), JsonField::Text(String::from_str(app_version))));
    entries.push((String::from_str("podcast"), podcast));
    entries.push((String::from_str("episode"), episode));
    entries.push((String::from_str("sender_name"), JsonField::Text(String::from_str(sender))));
    entries.push((String::from_str("message"), JsonField::Text(String::from_str(message))));
    entries.push((String::from_str("action"), JsonField::Text(String::from_str("boost"))));
    entries.push((String::from_str("value_msat_total"), JsonField::Uint(total)));
    proof {
        assert(entries_view(entries@) =~= reply_entries(
            app_version@,
            podcast@,
            episode@,
            sender@,
            message@,
            total,
        ));
    }
    json_object_pretty(&entries)
}

/// Reads one numeric member of a stored payload as the node's numbers are
/// read: only a number that fits a `u64` counts.
pub fn read_u64_field(tlv: &str, name: &str) -> (r: Option<u64>)
    ensures
        match json_field_of(tlv@, name@) {
            JsonFieldV::Uint(u) => r == Some(u),
            _ => r is None,
        },
{
    match crate::jsonio::json_field(tlv, name) {
        JsonField::Uint(u) => Some(u),
        _ => None,
    }
}

} // verus!
