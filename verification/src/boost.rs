//! Record types for inbound and outbound value events.
use vstd::prelude::*;

verus! {

/// Classification of a value event, derived from the `action` field of the
/// boost payload.
#[derive(Clone, Copy, Debug, PartialEq, Eq, Structural)]
pub enum BoostAction {
    /// No action has been decoded yet.
    Unset,
    /// A per-interval streaming payment.
    Stream,
    /// A manual boost or boost-a-gram.
    Boost,
    /// An action string that is neither `stream` nor `boost`.
    Unknown,
}

/// The numeric code a record stores for each action.
pub open spec fn spec_action_code(a: BoostAction) -> u64 {
    match a {
        BoostAction::Unset => 0,
        BoostAction::Stream => 1,
        BoostAction::Boost => 2,
        BoostAction::Unknown => 3,
    }
}

/// The numeric code a record stores for each action.
pub fn action_code(a: BoostAction) -> (r: u64)
    ensures
        r == spec_action_code(a),
{
    match a {
        BoostAction::Unset => 0,
        BoostAction::Stream => 1,
        BoostAction::Boost => 2,
        BoostAction::Unknown => 3,
    }
}

/// Identity of the sending wallet, attached to outbound payment records.
#[derive(Clone, Debug)]
pub struct PaymentRecord {
    pub pubkey: String,
    pub custom_key: u64,
    pub custom_value: String,
    pub fee_msat: i64,
}

/// One inbound or outbound value event.
///
/// `index` is the node-assigned id and the idempotency key within its
/// stream; invoices and payments are separate index spaces.
#[derive(Clone, Debug)]
pub struct BoostRecord {
    pub index: u64,
    pub time: i64,
    pub value_msat: i64,
    pub value_msat_total: i64,
    pub action: BoostAction,
    pub sender: String,
    pub app: String,
    pub message: String,
    pub podcast: String,
    pub episode: String,
    pub tlv: String,
    pub remote_podcast: Option<String>,
    pub remote_episode: Option<String>,
    pub payment_info: Option<PaymentRecord>,
}

/// Record `r` sits at the given stream position with the given amounts, and
/// every field the decoder may fill is still at its default; whether
/// `payment_info` is carried is left open.
pub open spec fn fresh_fields(
    r: BoostRecord,
    index: u64,
    time: int,
    value_msat: int,
    value_msat_total: int,
) -> bool {
    &&& r.index == index
    &&& r.time == time
    &&& r.value_msat == value_msat
    &&& r.value_msat_total == value_msat_total
    &&& r.action == BoostAction::Unset
    &&& r.sender@ == Seq::<char>::empty()
    &&& r.app@ == Seq::<char>::empty()
    &&& r.message@ == Seq::<char>::empty()
    &&& r.podcast@ == Seq::<char>::empty()
    &&& r.episode@ == Seq::<char>::empty()
    &&& r.tlv@ == Seq::<char>::empty()
    &&& r.remote_podcast is None
    &&& r.remote_episode is None
}

impl BoostRecord {
    /// A record with the given stream position and amounts and every other
    /// field still at its default.
    pub fn empty_at(index: u64, time: i64, value_msat: i64, value_msat_total: i64) -> (r:
        BoostRecord)
        ensures
            fresh_fields(r, index, time as int, value_msat as int, value_msat_total as int),
            r.payment_info is None,
    {
        BoostRecord {
            index,
            time,
            value_msat,
            value_msat_total,
            action: BoostAction::Unset,
            sender: String::new(),
            app: String::new(),
            message: String::new(),
            podcast: String::new(),
            episode: String::new(),
            tlv: String::new(),
            remote_podcast: None,
            remote_episode: None,
            payment_info: None,
        }
    }
}

/// Result of an explicit outbound send; a distinct stream from
/// [`BoostRecord`].
///
/// `total_fees_msat` uses `-1` as the "fee unknown or pending" sentinel.
#[derive(Clone, Debug)]
pub struct SentBoostRecord {
    pub pubkey: String,
    pub custom_key: Option<u64>,
    pub custom_value: Option<String>,
    pub sender: String,
    pub message: String,
    pub podcast: String,
    pub episode: String,
    pub total_amt_msat: i64,
    pub total_fees_msat: i64,
    pub payment_hash: String,
    pub reply_boost_index: Option<u64>,
    pub tlv: String,
}

} // verus!
