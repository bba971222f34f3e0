use crate::price_provider::Price;
use vstd::prelude::*;

verus! {

/// A price together with the signature that vouches for it, as handed to a
/// message consumer.
#[derive(Clone, Debug)]
pub struct PriceMessage {
    pub price: Price,
    pub signature: Vec<u8>,
}

/// A consumer that merely logs the messages it is handed; the logging
/// itself is I/O and happens outside the library.
#[derive(Clone, Copy, Debug)]
pub struct LogMessageConsumer {}

} // verus!
