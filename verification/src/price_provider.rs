use vstd::prelude::*;
use vstd::string::*;

verus! {

/// Number of decimal digits carried by a sampled price.
pub const PRECISION_DECIMALS: u32 = 6;

/// Fixed-point scale of a sampled price: a raw `value` of
/// `PRECISION_FACTOR` means 1 unit.
pub const PRECISION_FACTOR: u64 = 1000000;

/// A sampled price as a non-negative fixed-point number at
/// `PRECISION_FACTOR` scale.
#[derive(Clone, Copy, Debug, PartialEq, Eq, Structural)]
pub struct Price {
    pub value: u64,
}

/// Configuration for sampling prices from a gofer price feed endpoint.
/// The network call itself happens outside the library; this type carries
/// the endpoint and the asset pair the request asks for.
pub struct GoferPriceProvider {
    pub gofer_url: String,
    pub pair: String,
}

impl GoferPriceProvider {
    /// A provider for the default asset pair.
    pub fn new(gofer_url: &str) -> (r: GoferPriceProvider)
        ensures
            r.gofer_url@ == gofer_url@,
            r.pair@ == "ETH/USD"@,
    {
        GoferPriceProvider {
            gofer_url: String::from_str(gofer_url),
            pair: String::from_str("ETH/USD"),
        }
    }

    /// A provider for an explicitly chosen asset pair.
    pub fn new_with_pair(gofer_url: &str, pair: String) -> (r: GoferPriceProvider)
        ensures
            r.gofer_url@ == gofer_url@,
            r.pair == pair,
    {
        GoferPriceProvider { gofer_url: String::from_str(gofer_url), pair }
    }
}

} // verus!
