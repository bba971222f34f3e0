use crate::price_provider::Price;
use vstd::bytes::*;
use vstd::prelude::*;
use vstd::string::*;

verus! {

/// The exact price sampled for one slot.
#[derive(Clone, Copy, Debug, PartialEq, Eq, Structural)]
pub struct PriceValueMessage {
    pub price: Price,
    pub slot_number: u64,
}

/// A price value message together with a signature over its canonical
/// encoding.
#[derive(Clone, Debug)]
pub struct SignedPriceValueMessage {
    pub message: PriceValueMessage,
    pub signature: Vec<u8>,
}

/// The claim that the reduced-precision bucket `value` lies within the
/// committed band (of `interval_size` basis points) around the price
/// sampled for slot `slot_number`.
#[derive(Clone, Copy, Debug, PartialEq, Eq, Structural)]
pub struct IntervalInclusionMessage {
    pub value: u64,
    pub interval_size: u64,
    pub slot_number: u64,
}

/// An interval inclusion message together with a signature over its
/// canonical encoding.
#[derive(Clone, Debug)]
pub struct SignedIntervalInclusionMessage {
    pub message: IntervalInclusionMessage,
    pub signature: Vec<u8>,
}

/// The full bundle produced for one slot: the signed exact-value message,
/// the signed inclusion messages in ascending order of their value, and the
/// public key the signatures verify against.
#[derive(Clone, Debug)]
pub struct OracleMessage {
    pub value_message: SignedPriceValueMessage,
    pub interval_inclusion_messages: Vec<SignedIntervalInclusionMessage>,
    pub validator_public_key: Vec<u8>,
}

/// Canonical byte layout of a price value message: the little-endian bytes
/// of the raw price value followed by those of the slot number.
pub open spec fn spec_price_value_ssz(value: u64, slot_number: u64) -> Seq<u8> {
    spec_u64_to_le_bytes(value) + spec_u64_to_le_bytes(slot_number)
}

/// Canonical byte layout of an interval inclusion message: the
/// little-endian bytes of its three fields in declaration order.
pub open spec fn spec_interval_inclusion_ssz(
    value: u64,
    interval_size: u64,
    slot_number: u64,
) -> Seq<u8> {
    spec_u64_to_le_bytes(value) + spec_u64_to_le_bytes(interval_size) + spec_u64_to_le_bytes(
        slot_number,
    )
}

impl PriceValueMessage {
    /// The canonical encoding that gets signed: a fixed, versionless layout
    /// of the message's fields as little-endian 64-bit words.
    pub fn as_ssz_bytes(&self) -> (r: Vec<u8>)
        ensures
            r@ == spec_price_value_ssz(self.price.value, self.slot_number),
    {
        let mut out = u64_to_le_bytes(self.price.value);
        let mut tail = u64_to_le_bytes(self.slot_number);
        out.append(&mut tail);
        out
    }
}

impl IntervalInclusionMessage {
    /// The canonical encoding that gets signed: a fixed, versionless layout
    /// of the message's fields as little-endian 64-bit words.
    pub fn as_ssz_bytes(&self) -> (r: Vec<u8>)
        ensures
            r@ == spec_interval_inclusion_ssz(self.value, self.interval_size, self.slot_number),
    {
        let mut out = u64_to_le_bytes(self.value);
        let mut mid = u64_to_le_bytes(self.interval_size);
        let mut tail = u64_to_le_bytes(self.slot_number);
        out.append(&mut mid);
        out.append(&mut tail);
        out
    }
}

/// Configuration for delivering finished bundles to an HTTP endpoint. The
/// request itself happens outside the library.
pub struct HttpMessageBroadcaster {
    pub server_url: String,
}

impl HttpMessageBroadcaster {
    /// A broadcaster that posts bundles to the given server.
    pub fn new_with_url(server_url: &str) -> (r: HttpMessageBroadcaster)
        ensures
            r.server_url@ == server_url@,
    {
        HttpMessageBroadcaster { server_url: String::from_str(server_url) }
    }
}

/// Default directory for bundles written to disk.
pub const DIRECTORY_PATH: &'static str = "test_messages";

/// Configuration for writing finished bundles to files in a directory, one
/// file per slot. The file I/O happens outside the library.
pub struct JsonFileMessageBroadcaster {
    pub directory_path: String,
}

impl JsonFileMessageBroadcaster {
    /// A broadcaster that writes into the given directory, or into the
    /// default directory when none is given.
    pub fn new(directory_path: Option<String>) -> (r: JsonFileMessageBroadcaster)
        ensures
            directory_path is Some ==> r.directory_path == directory_path->0,
            directory_path is None ==> r.directory_path@ == DIRECTORY_PATH@,
    {
        let directory_path = match directory_path {
            Some(path) => path,
            None => String::from_str(DIRECTORY_PATH),
        };
        JsonFileMessageBroadcaster { directory_path }
    }
}

/// A broadcaster that merely logs each bundle; the logging itself is I/O
/// and happens outside the library.
#[derive(Clone, Copy, Debug)]
pub struct LogMessageBroadcaster {}

} // verus!
