//! Core logic of a Lightning keysend "boost" processor: it decodes the
//! Podcasting 2.0 TLV payload carried by inbound invoices and outbound
//! payments, reconciles polled batches against persisted watermarks,
//! memoizes remote podcast/episode lookups in a bounded cache, and builds
//! outgoing keysend payments.
use vstd::prelude::*;

pub mod boost;
pub mod decoder;
pub mod hexfmt;
pub mod jsonio;
pub mod numeric;
pub mod poller;
pub mod resolver;
pub mod sender;

verus! {

/// TLV custom-record type for the Podcasting 2.0 boost payload.
pub const TLV_PODCASTING20: u64 = 7629169;
/// TLV custom-record type carrying a wallet key identity.
pub const TLV_WALLET_KEY: u64 = 696969;
/// TLV custom-record type carrying a wallet id identity.
pub const TLV_WALLET_ID: u64 = 112111100;
/// TLV custom-record type carrying a hive account identity.
pub const TLV_HIVE_ACCOUNT: u64 = 818818;
/// TLV custom-record type carrying the keysend pre-image.
pub const TLV_KEYSEND: u64 = 5482373484;

} // verus!
