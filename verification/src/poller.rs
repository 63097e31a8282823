//! Decisions of the polling loop: building a record from a fetched invoice
//! or outgoing payment, scanning a hop's custom records, and the watermark
//! arithmetic that keeps consecutive cycles free of duplicates and gaps.
//!
//! The loop itself — fetching batches from the node at a fixed interval and
//! persisting what these functions produce — stays outside the library, and
//! hands each fetched item over as plain values.
use crate::boost::{fresh_fields, BoostRecord, PaymentRecord};
use crate::decoder::{opt_pair_view, parse_podcast_tlv, single_decode_post};
use crate::TLV_PODCASTING20;
use crate::TLV_WALLET_KEY;
use crate::TLV_WALLET_ID;
use crate::TLV_HIVE_ACCOUNT;
use vstd::prelude::*;
use vstd::utf8::{decode_utf8, valid_utf8};

verus! {

/// One invoice as the node reports it, reduced to the fields the loop
/// consumes.  `custom_records` carries the type/value pairs of every HTLC,
/// in the order the node hands them out.
pub struct InvoiceSummary {
    pub add_index: u64,
    pub settle_date: i64,
    pub amt_paid_sat: i64,
    pub custom_records: Vec<(u64, Vec<u8>)>,
}

/// One outgoing payment as the node reports it, reduced to the fields the
/// loop consumes.
pub struct PaymentSummary {
    pub payment_index: u64,
    pub creation_time_ns: i64,
    pub value_msat: i64,
    pub fee_msat: i64,
}

/// One hop of a payment route: the hop's public key and its custom records
/// in order.
pub struct HopSummary {
    pub pub_key: String,
    pub custom_records: Vec<(u64, Vec<u8>)>,
}

/// The boost payloads among a list of custom records: the value bytes of
/// every record of the Podcasting 2.0 type, in order.
pub open spec fn podcast_payloads(records: Seq<(u64, Vec<u8>)>) -> Seq<Seq<u8>>
    decreases records.len(),
{
    if records.len() == 0 {
        Seq::empty()
    } else {
        let rest = podcast_payloads(records.drop_last());
        if records.last().0 == TLV_PODCASTING20 {
            rest.push(records.last().1@)
        } else {
            rest
        }
    }
}

/// Whether a custom-record type names the sending wallet.
pub open spec fn is_wallet_key(k: u64) -> bool {
    k == TLV_WALLET_KEY || k == TLV_WALLET_ID || k == TLV_HIVE_ACCOUNT
}

/// The wallet identity a list of custom records carries: the last record
/// with a wallet type and UTF-8 value wins.
pub open spec fn last_wallet_entry(records: Seq<(u64, Vec<u8>)>) -> Option<(u64, Seq<u8>)>
    decreases records.len(),
{
    if records.len() == 0 {
        None
    } else if is_wallet_key(records.last().0) && valid_utf8(records.last().1@) {
        Some((records.last().0, records.last().1@))
    } else {
        last_wallet_entry(records.drop_last())
    }
}

/// Marks one candidate intermediate state of a fold, so a proof can point
/// at the state it has in hand.
pub open spec fn fold_link(
    mid: BoostRecord,
    acc: Option<(Seq<char>, Seq<char>)>,
    step: Option<(Seq<char>, Seq<char>)>,
) -> bool {
    true
}

/// Record `b` is record `a` after the payloads were folded in, one
/// decoding step each in order, and `remote` is the resolution request of
/// the last step that produced one.
pub open spec fn decode_fold_post(
    a: BoostRecord,
    b: BoostRecord,
    payloads: Seq<Seq<u8>>,
    remote: Option<(Seq<char>, Seq<char>)>,
) -> bool
    decreases payloads.len(),
{
    if payloads.len() == 0 {
        b == a && remote is None
    } else {
        exists|
            mid: BoostRecord,
            acc: Option<(Seq<char>, Seq<char>)>,
            step: Option<(Seq<char>, Seq<char>)>,
        |
            {
                &&& #[trigger] fold_link(mid, acc, step)
                &&& decode_fold_post(a, mid, payloads.drop_last(), acc)
                &&& single_decode_post(mid, b, payloads.last(), step)
                &&& remote == (if step is Some {
                    step
                } else {
                    acc
                })
            }
    }
}

/// One more decoding step extends a fold: folding `payloads` and then
/// decoding `v` is folding `payloads` with `v` appended.
proof fn lemma_decode_fold_step(
    a: BoostRecord,
    mid: BoostRecord,
    b: BoostRecord,
    payloads: Seq<Seq<u8>>,
    v: Seq<u8>,
    acc: Option<(Seq<char>, Seq<char>)>,
    step: Option<(Seq<char>, Seq<char>)>,
)
    requires
        decode_fold_post(a, mid, payloads, acc),
        single_decode_post(mid, b, v, step),
    ensures
        decode_fold_post(
            a,
            b,
            payloads.push(v),
            (if step is Some {
                step
            } else {
                acc
            }),
        ),
{
    assert(payloads.push(v).drop_last() =~= payloads);
    assert(payloads.push(v).last() == v);
    assert(decode_fold_post(a, mid, payloads.push(v).drop_last(), acc));
    assert(single_decode_post(mid, b, payloads.push(v).last(), step));
    assert(fold_link(mid, acc, step));
}

/// How many boost payloads a list of custom records carries.
pub fn count_podcast_payloads(records: &Vec<(u64, Vec<u8>)>) -> (r: usize)
    ensures
        r == podcast_payloads(records@).len(),
{
    let mut count: usize = 0;
    let mut i: usize = 0;
    while i < records.len()
        invariant
            0 <= i <= records.len(),
            count <= i,
            count == podcast_payloads(records@.take(i as int)).len(),
        decreases records.len() - i,
    {
        proof {
            assert(records@.take(i + 1).drop_last() =~= records@.take(i as int));
            assert(records@.take(i + 1).last() == records@[i as int]);
        }
        if records[i].0 == TLV_PODCASTING20 {
            count = count + 1;
        }
        i = i + 1;
    }
    proof {
        assert(records@.take(records@.len() as int) =~= records@);
    }
    count
}

/// A record freshly built from one fetched invoice, with the paid amount
/// carried over in millisatoshis, before any payload is folded in.
pub fn invoice_record(inv: &InvoiceSummary) -> (r: BoostRecord)
    requires
        0 <= inv.amt_paid_sat <= i64::MAX / 1000,
    ensures
        fresh_fields(
            r,
            inv.add_index,
            inv.settle_date as int,
            inv.amt_paid_sat * 1000,
            inv.amt_paid_sat * 1000,
        ),
        r.payment_info is None,
{
    BoostRecord::empty_at(
        inv.add_index,
        inv.settle_date,
        inv.amt_paid_sat * 1000,
        inv.amt_paid_sat * 1000,
    )
}

/// Folds every boost payload among the custom records into the record, in
/// order, and reports the last remote-identity request a payload carried.
///
/// The stream position, the payment identity and any already-resolved
/// remote identity are never touched.  The record comes out as the in-order
/// fold of every boost payload, per [`decode_fold_post`]; with no boost
/// payload it comes back as it went in, and with exactly one, the record
/// and the request are what that payload's decoding dictates.
pub fn fold_tlv_records(boost: &mut BoostRecord, records: &Vec<(u64, Vec<u8>)>) -> (remote: Option<
    (String, String),
>)
    ensures
        final(boost).index == old(boost).index,
        final(boost).time == old(boost).time,
        final(boost).payment_info == old(boost).payment_info,
        final(boost).remote_podcast == old(boost).remote_podcast,
        final(boost).remote_episode == old(boost).remote_episode,
        decode_fold_post(
            *old(boost),
            *final(boost),
            podcast_payloads(records@),
            opt_pair_view(remote),
        ),
        podcast_payloads(records@).len() == 0 ==> *final(boost) == *old(boost) && remote is None,
        podcast_payloads(records@).len() == 1 ==> single_decode_post(
            *old(boost),
            *final(boost),
            podcast_payloads(records@)[0],
            opt_pair_view(remote),
        ),
{
    let mut remote: Option<(String, String)> = None;
    let mut i: usize = 0;
    while i < records.len()
        invariant
            0 <= i <= records.len(),
            boost.index == old(boost).index,
            boost.time == old(boost).time,
            boost.payment_info == old(boost).payment_info,
            boost.remote_podcast == old(boost).remote_podcast,
            boost.remote_episode == old(boost).remote_episode,
            decode_fold_post(
                *old(boost),
                *boost,
                podcast_payloads(records@.take(i as int)),
                opt_pair_view(remote),
            ),
            podcast_payloads(records@.take(i as int)).len() == 0 ==> *boost == *old(boost)
                && remote is None,
            podcast_payloads(records@.take(i as int)).len() == 1 ==> single_decode_post(
                *old(boost),
                *boost,
                podcast_payloads(records@.take(i as int))[0],
                opt_pair_view(remote),
            ),
        decreases records.len() - i,
    {
        proof {
            assert(records@.take(i + 1).drop_last() =~= records@.take(i as int));
            assert(records@.take(i + 1).last() == records@[i as int]);
        }
        if records[i].0 == TLV_PODCASTING20 {
            let ghost pre = *boost;
            let ghost pre_remote = opt_pair_view(remote);
            let r = parse_podcast_tlv(boost, &records[i].1);
            let ghost step = opt_pair_view(r);
            if let Some(p) = r {
                remote = Some(p);
            }
            proof {
                let fp = podcast_payloads(records@.take(i as int));
                lemma_decode_fold_step(
                    *old(boost),
                    pre,
                    *boost,
                    fp,
                    records@[i as int].1@,
                    pre_remote,
                    step,
                );
                assert(podcast_payloads(records@.take(i + 1)) == fp.push(
                    records@[i as int].1@,
                ));
                assert(opt_pair_view(remote) == (if step is Some {
                    step
                } else {
                    pre_remote
                }));
            }
        }
        i = i + 1;
    }
    proof {
        assert(records@.take(records@.len() as int) =~= records@);
    }
    remote
}

/// A record freshly built from one outgoing payment, or nothing when the
/// inspected hop carries no boost payload and the payment is to be skipped.
///
/// The caller hands over the last hop of the route, the one that carries
/// the destination's custom records.  The payment identity takes the hop's
/// public key, the payment's fee, and the wallet identity the hop's custom
/// records carry, if any.
pub fn payment_record(p: &PaymentSummary, hop: &HopSummary) -> (r: Option<BoostRecord>)
    requires
        p.creation_time_ns >= 0,
    ensures
        r is Some <==> podcast_payloads(hop.custom_records@).len() > 0,
        r matches Some(b) ==> fresh_fields(
            b,
            p.payment_index,
            p.creation_time_ns / 1000000000,
            p.value_msat as int,
            p.value_msat as int,
        ),
        r matches Some(b) ==> (b.payment_info matches Some(pi) && pi.pubkey@ == hop.pub_key@
            && pi.fee_msat == p.fee_msat && (match last_wallet_entry(hop.custom_records@) {
            Some(e) => pi.custom_key == e.0 && pi.custom_value@ == decode_utf8(e.1),
            None => pi.custom_key == 0 && pi.custom_value@ == Seq::<char>::empty(),
        })),
{
    if count_podcast_payloads(&hop.custom_records) == 0 {
        return None;
    }
    let secs_u = (p.creation_time_ns as u64) / 1000000000u64;
    let secs = secs_u as i64;
    proof {
        assert(secs == p.creation_time_ns / 1000000000);
    }
    let mut record = BoostRecord::empty_at(p.payment_index, secs, p.value_msat, p.value_msat);
    let mut custom_key: u64 = 0;
    let mut custom_value = String::new();
    let mut i: usize = 0;
    while i < hop.custom_records.len()
        invariant
            0 <= i <= hop.custom_records.len(),
            match last_wallet_entry(hop.custom_records@.take(i as int)) {
                Some(e) => custom_key == e.0 && custom_value@ == decode_utf8(e.1),
                None => custom_key == 0 && custom_value@ == Seq::<char>::empty(),
            },
        decreases hop.custom_records.len() - i,
    {
        proof {
            assert(hop.custom_records@.take(i + 1).drop_last() =~= hop.custom_records@.take(
                i as int,
            ));
            assert(hop.custom_records@.take(i + 1).last() == hop.custom_records@[i as int]);
        }
        let idx = hop.custom_records[i].0;
        if idx == TLV_WALLET_KEY || idx == TLV_WALLET_ID || idx == TLV_HIVE_ACCOUNT {
            if let Some(text) = crate::decoder::utf8_text(&hop.custom_records[i].1) {
                custom_key = idx;
                custom_value = text;
            }
        }
        i = i + 1;
    }
    proof {
        assert(hop.custom_records@.take(hop.custom_records@.len() as int)
            =~= hop.custom_records@);
    }
    record.payment_info = Some(
        PaymentRecord {
            pubkey: hop.pub_key.clone(),
            custom_key,
            custom_value,
            fee_msat: p.fee_msat,
        },
    );
    Some(record)
}

/// The stream indices one polling cycle covers when it starts at watermark
/// `w0` and ends at watermark `w1`: everything strictly above the old
/// watermark, up to the new one.
pub open spec fn cycle_range(w0: int, w1: int) -> Set<int> {
    Set::new(|i: int| w0 < i <= w1)
}

/// Two polling cycles, the second starting at the watermark the first ended
/// with, touch no index twice and leave no index out: together they cover
/// exactly the indices above the first watermark up to the last.
pub proof fn lemma_consecutive_cycles_partition(w0: int, w1: int, w2: int)
    requires
        w0 <= w1 <= w2,
    ensures
        cycle_range(w0, w1).disjoint(cycle_range(w1, w2)),
        cycle_range(w0, w1).union(cycle_range(w1, w2)) =~= cycle_range(w0, w2),
{
}

/// A batch fetched above watermark `w0` only carries indices of that
/// cycle's range, so two consecutive batches never hand the loop the same
/// index.
pub proof fn lemma_consecutive_batches_disjoint(
    a: Seq<u64>,
    b: Seq<u64>,
    w0: int,
    w1: int,
    w2: int,
)
    requires
        w0 <= w1 <= w2,
        forall|i: int| 0 <= i < a.len() ==> w0 < #[trigger] a[i] <= w1,
        forall|j: int| 0 <= j < b.len() ==> w1 < #[trigger] b[j] <= w2,
    ensures
        forall|i: int, j: int| 0 <= i < a.len() && 0 <= j < b.len() ==> a[i] != b[j],
{
}

} // verus!
