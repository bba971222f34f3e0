use crate::message_broadcaster::{
    spec_interval_inclusion_ssz, spec_price_value_ssz, IntervalInclusionMessage, OracleMessage,
    PriceValueMessage, SignedIntervalInclusionMessage, SignedPriceValueMessage,
};
use crate::price_provider::{Price, PRECISION_FACTOR};
use crate::signature_provider::{SignError, SignatureProvider};
use crate::slot::Slot;
use vstd::prelude::*;

verus! {

/// Number of decimal digits kept by the reduced-precision buckets.
pub const INTERVAL_STEP_DECIMALS: u32 = 2;

/// Fixed-point scale of the reduced-precision buckets.
pub const INTERVAL_PRECISION_FACTOR: u64 = 100;

/// Half-width of the committed band around the sampled price, in basis
/// points (20 basis points = 0.20%).
pub const INTERVAL_SIZE_BASIS_POINTS: u64 = 20;

/// The whole, expressed in basis points.
pub const ONE_IN_BASIS_POINTS: u64 = 10000;

/// A raw price value re-scaled from the sampler's precision to the
/// reduced precision of the interval buckets.
pub open spec fn spec_convert_precision(v: int) -> int {
    v * INTERVAL_PRECISION_FACTOR / (PRECISION_FACTOR as int)
}

/// The first bucket above the committed band: the price scaled up by the
/// band width and reduced in precision.
pub open spec fn spec_upper_bound(price_value: int) -> int {
    spec_convert_precision(
        price_value * (ONE_IN_BASIS_POINTS + INTERVAL_SIZE_BASIS_POINTS) / (
        ONE_IN_BASIS_POINTS as int),
    )
}

/// The first bucket of the committed band: the price scaled down by the
/// band width and reduced in precision.
pub open spec fn spec_lower_bound(price_value: int) -> int {
    spec_convert_precision(
        price_value * (ONE_IN_BASIS_POINTS - INTERVAL_SIZE_BASIS_POINTS) / (
        ONE_IN_BASIS_POINTS as int),
    )
}

/// The band is well formed: its bounds are non-negative and ordered.
pub proof fn lemma_band_ordered(price_value: u64)
    ensures
        0 <= spec_lower_bound(price_value as int),
        spec_lower_bound(price_value as int) <= spec_upper_bound(price_value as int),
        spec_upper_bound(price_value as int) <= price_value * (ONE_IN_BASIS_POINTS
            + INTERVAL_SIZE_BASIS_POINTS),
{
    let p = price_value as int;
    let up = p * (ONE_IN_BASIS_POINTS + INTERVAL_SIZE_BASIS_POINTS);
    let down = p * (ONE_IN_BASIS_POINTS - INTERVAL_SIZE_BASIS_POINTS);
    assert(0 <= p * 9980 <= p * 10020) by (nonlinear_arith)
        requires
            0 <= p,
    ;
    assert(0 <= down / 10000 <= up / 10000) by (nonlinear_arith)
        requires
            0 <= down <= up,
    ;
    let d = down / 10000;
    let u = up / 10000;
    assert(0 <= d * 100 <= u * 100) by (nonlinear_arith)
        requires
            0 <= d <= u,
    ;
    assert(0 <= d * 100 / 1000000 <= u * 100 / 1000000) by (nonlinear_arith)
        requires
            0 <= d * 100 <= u * 100,
    ;
    assert(u * 100 / 1000000 <= up) by (nonlinear_arith)
        requires
            0 <= up && u == up / 10000,
    ;
}

/// The signature carried by a signed inclusion statement is the provider's
/// signature over the canonical encoding of the statement's own message,
/// and it verifies against the provider's identity.
pub open spec fn spec_signed_inclusion_ok<S: SignatureProvider>(
    s: SignedIntervalInclusionMessage,
    p: S,
) -> bool {
    &&& s.signature@ == p.spec_signature(
        spec_interval_inclusion_ssz(s.message.value, s.message.interval_size, s.message.slot_number),
    )
    &&& p.spec_signature_verifies(
        spec_interval_inclusion_ssz(s.message.value, s.message.interval_size, s.message.slot_number),
    )
}

/// What `generate_oracle_message` promises of a returned bundle: every
/// field is a function of the provider, the sampled price and the slot.
/// The exact-value statement carries the price and the slot; the inclusion
/// statements cover exactly the buckets of the committed band in ascending
/// order, all bound to the same slot; every signature is the provider's
/// signature over the canonical encoding of its own statement and verifies
/// against the bundle's identity.
pub open spec fn spec_oracle_message_ok<S: SignatureProvider>(
    m: OracleMessage,
    p: S,
    price: Price,
    slot_number: u64,
) -> bool {
    let lower = spec_lower_bound(price.value as int);
    let upper = spec_upper_bound(price.value as int);
    &&& m.value_message.message.price == price
    &&& m.value_message.message.slot_number == slot_number
    &&& m.value_message.signature@ == p.spec_signature(
        spec_price_value_ssz(price.value, slot_number),
    )
    &&& p.spec_signature_verifies(spec_price_value_ssz(price.value, slot_number))
    &&& m.validator_public_key@ == p.spec_identity()
    &&& m.interval_inclusion_messages@.len() == upper - lower
    &&& forall|i: int|
        0 <= i < m.interval_inclusion_messages@.len() ==> {
            let s = #[trigger] m.interval_inclusion_messages@[i];
            &&& s.message.value == lower + i
            &&& s.message.interval_size == INTERVAL_SIZE_BASIS_POINTS
            &&& s.message.slot_number == slot_number
            &&& spec_signed_inclusion_ok(s, p)
        }
}

/// What `generate_oracle_message` promises in full: a provider whose
/// calls cannot fail always yields a bundle, and any returned bundle is
/// the one `spec_oracle_message_ok` describes.
pub open spec fn spec_generate_post<S: SignatureProvider>(
    r: Result<OracleMessage, SignError>,
    p: S,
    price: Price,
    slot_number: u64,
) -> bool {
    &&& p.spec_infallible() ==> r is Ok
    &&& r is Ok ==> spec_oracle_message_ok(r->Ok_0, p, price, slot_number)
}

/// Builds the full signed message bundle for one slot from one sampled
/// price, calling the signing capability once per statement.
pub struct MessageGenerator<S: SignatureProvider> {
    pub signature_provider: S,
}

impl<S: SignatureProvider> MessageGenerator<S> {
    /// A generator that signs with the given capability.
    pub fn new(signature_provider: S) -> (r: MessageGenerator<S>)
        ensures
            r.signature_provider == signature_provider,
    {
        MessageGenerator { signature_provider }
    }

    /// The band bound above the price, in reduced precision.
    fn get_upper_bound(&self, price_value: u64) -> (r: u64)
        requires
            price_value * (ONE_IN_BASIS_POINTS + INTERVAL_SIZE_BASIS_POINTS) <= u64::MAX,
        ensures
            r == spec_upper_bound(price_value as int),
    {
        proof {
            lemma_scaled_fits(price_value as int, (ONE_IN_BASIS_POINTS
                + INTERVAL_SIZE_BASIS_POINTS) as int);
        }
        self.convert_precision(
            price_value * (ONE_IN_BASIS_POINTS + INTERVAL_SIZE_BASIS_POINTS) / ONE_IN_BASIS_POINTS,
        )
    }

    /// The band bound below the price, in reduced precision.
    fn get_lower_bound(&self, price_value: u64) -> (r: u64)
        requires
            price_value * (ONE_IN_BASIS_POINTS + INTERVAL_SIZE_BASIS_POINTS) <= u64::MAX,
        ensures
            r == spec_lower_bound(price_value as int),
    {
        proof {
            lemma_scaled_fits(price_value as int, (ONE_IN_BASIS_POINTS
                - INTERVAL_SIZE_BASIS_POINTS) as int);
        }
        self.convert_precision(
            price_value * (ONE_IN_BASIS_POINTS - INTERVAL_SIZE_BASIS_POINTS) / ONE_IN_BASIS_POINTS,
        )
    }

    /// Re-scale a value from the sampler's precision to the buckets'
    /// reduced precision.
    fn convert_precision(&self, price_value: u64) -> (r: u64)
        requires
            price_value * INTERVAL_PRECISION_FACTOR <= u64::MAX,
        ensures
            r == spec_convert_precision(price_value as int),
    {
        price_value * INTERVAL_PRECISION_FACTOR / PRECISION_FACTOR
    }

    /// Build and sign one inclusion statement for every bucket of the
    /// committed band, in ascending order of the bucket value. All-or-
    /// nothing: the first failed signing call aborts the run.
    fn generate_signed_interval_inclusion_messages(
        &self,
        price_value: u64,
        slot_number: u64,
    ) -> (r: Result<Vec<SignedIntervalInclusionMessage>, SignError>)
        requires
            price_value * (ONE_IN_BASIS_POINTS + INTERVAL_SIZE_BASIS_POINTS) <= u64::MAX,
        ensures
            self.signature_provider.spec_infallible() ==> r is Ok,
            spec_upper_bound(price_value as int) == spec_lower_bound(price_value as int) ==> r is Ok,
            r is Ok ==> {
                let out = r->Ok_0@;
                let lower = spec_lower_bound(price_value as int);
                let upper = spec_upper_bound(price_value as int);
                &&& out.len() == upper - lower
                &&& forall|i: int|
                    0 <= i < out.len() ==> {
                        let s = #[trigger] out[i];
                        &&& s.message.value == lower + i
                        &&& s.message.interval_size == INTERVAL_SIZE_BASIS_POINTS
                        &&& s.message.slot_number == slot_number
                        &&& spec_signed_inclusion_ok(s, self.signature_provider)
                    }
            },
    {
        let upper_bound = self.get_upper_bound(price_value);
        let lower_bound = self.get_lower_bound(price_value);
        proof {
            lemma_band_ordered(price_value);
        }
        let mut out: Vec<SignedIntervalInclusionMessage> = Vec::new();
        let mut v = lower_bound;
        while v < upper_bound
            invariant
                lower_bound <= v <= upper_bound,
                lower_bound == spec_lower_bound(price_value as int),
                upper_bound == spec_upper_bound(price_value as int),
                out@.len() == v - lower_bound,
                forall|i: int|
                    0 <= i < out@.len() ==> {
                        let s = #[trigger] out@[i];
                        &&& s.message.value == lower_bound + i
                        &&& s.message.interval_size == INTERVAL_SIZE_BASIS_POINTS
                        &&& s.message.slot_number == slot_number
                        &&& spec_signed_inclusion_ok(s, self.signature_provider)
                    },
            decreases upper_bound - v,
        {
            let message = IntervalInclusionMessage {
                value: v,
                interval_size: INTERVAL_SIZE_BASIS_POINTS,
                slot_number,
            };
            let encoded = message.as_ssz_bytes();
            let signature = match self.signature_provider.sign(encoded.as_slice()) {
                Ok(sig) => sig,
                Err(e) => {
                    return Err(e);
                },
            };
            out.push(SignedIntervalInclusionMessage { message, signature });
            v = v + 1;
        }
        Ok(out)
    }

    /// Build and sign the exact-value statement for the slot.
    fn generate_signed_price_value_message(&self, price: Price, slot_number: u64) -> (r: Result<
        SignedPriceValueMessage,
        SignError,
    >)
        ensures
            self.signature_provider.spec_infallible() ==> r is Ok,
            r is Ok ==> {
                let s = r->Ok_0;
                &&& s.message.price == price
                &&& s.message.slot_number == slot_number
                &&& s.signature@ == self.signature_provider.spec_signature(
                    spec_price_value_ssz(price.value, slot_number),
                )
                &&& self.signature_provider.spec_signature_verifies(
                    spec_price_value_ssz(price.value, slot_number),
                )
            },
    {
        let price_value_message = PriceValueMessage { price, slot_number };
        let encoded = price_value_message.as_ssz_bytes();
        let signature = match self.signature_provider.sign(encoded.as_slice()) {
            Ok(sig) => sig,
            Err(e) => {
                return Err(e);
            },
        };
        Ok(SignedPriceValueMessage { message: price_value_message, signature })
    }

    /// Build the full signed bundle for one sampled price and one slot:
    /// one signed inclusion statement per bucket of the committed band, in
    /// ascending order, one signed exact-value statement, and the signer's
    /// public identity. All-or-nothing: a failed signing call or an
    /// unavailable identity yields an error and no partial bundle.
    pub fn generate_oracle_message(&self, price: Price, slot: Slot) -> (r: Result<
        OracleMessage,
        SignError,
    >)
        requires
            price.value * (ONE_IN_BASIS_POINTS + INTERVAL_SIZE_BASIS_POINTS) <= u64::MAX,
        ensures
            spec_generate_post(r, self.signature_provider, price, slot.number),
    {
        let slot_number = slot.number;
        let interval_inclusion_messages = match self.generate_signed_interval_inclusion_messages(
            price.value,
            slot_number,
        ) {
            Ok(msgs) => msgs,
            Err(e) => {
                return Err(e);
            },
        };
        let value_message = match self.generate_signed_price_value_message(price, slot_number) {
            Ok(m) => m,
            Err(e) => {
                return Err(e);
            },
        };
        let validator_public_key = match self.signature_provider.get_public_key() {
            Ok(pk) => pk,
            Err(e) => {
                return Err(e);
            },
        };
        Ok(OracleMessage { value_message, interval_inclusion_messages, validator_public_key })
    }
}

/// Law: generation is deterministic. Two bundles that
/// `generate_oracle_message` may return for the same provider, the same
/// sampled price and the same slot agree bit for bit: same statements in
/// the same order, same signatures, same identity.
pub proof fn lemma_generate_deterministic<S: SignatureProvider>(
    m1: OracleMessage,
    m2: OracleMessage,
    p: S,
    price: Price,
    slot_number: u64,
)
    requires
        spec_oracle_message_ok(m1, p, price, slot_number),
        spec_oracle_message_ok(m2, p, price, slot_number),
    ensures
        m1.value_message.message == m2.value_message.message,
        m1.value_message.signature@ == m2.value_message.signature@,
        m1.validator_public_key@ == m2.validator_public_key@,
        m1.interval_inclusion_messages@.len() == m2.interval_inclusion_messages@.len(),
        forall|i: int|
            0 <= i < m1.interval_inclusion_messages@.len() ==> {
                &&& #[trigger] m1.interval_inclusion_messages@[i].message
                    == m2.interval_inclusion_messages@[i].message
                &&& m1.interval_inclusion_messages@[i].signature@
                    == m2.interval_inclusion_messages@[i].signature@
            },
{
    assert forall|i: int| 0 <= i < m1.interval_inclusion_messages@.len() implies {
        &&& #[trigger] m1.interval_inclusion_messages@[i].message
            == m2.interval_inclusion_messages@[i].message
        &&& m1.interval_inclusion_messages@[i].signature@
            == m2.interval_inclusion_messages@[i].signature@
    } by {
        let s1 = m1.interval_inclusion_messages@[i];
        let s2 = m2.interval_inclusion_messages@[i];
        assert(s1.message.value == spec_lower_bound(price.value as int) + i);
        assert(s2.message.value == spec_lower_bound(price.value as int) + i);
    }
}

/// Law: generation is deterministic in its outcome as well as its
/// contents. For a provider whose calls cannot fail, two results that
/// `generate_oracle_message` may return for the same provider, price and
/// slot are both bundles, and those bundles agree bit for bit.
pub proof fn lemma_generate_outcome_deterministic<S: SignatureProvider>(
    r1: Result<OracleMessage, SignError>,
    r2: Result<OracleMessage, SignError>,
    p: S,
    price: Price,
    slot_number: u64,
)
    requires
        p.spec_infallible(),
        spec_generate_post(r1, p, price, slot_number),
        spec_generate_post(r2, p, price, slot_number),
    ensures
        r1 is Ok && r2 is Ok,
        r1->Ok_0.value_message.message == r2->Ok_0.value_message.message,
        r1->Ok_0.value_message.signature@ == r2->Ok_0.value_message.signature@,
        r1->Ok_0.validator_public_key@ == r2->Ok_0.validator_public_key@,
        r1->Ok_0.interval_inclusion_messages@.len()
            == r2->Ok_0.interval_inclusion_messages@.len(),
        forall|i: int|
            0 <= i < r1->Ok_0.interval_inclusion_messages@.len() ==> {
                &&& #[trigger] r1->Ok_0.interval_inclusion_messages@[i].message
                    == r2->Ok_0.interval_inclusion_messages@[i].message
                &&& r1->Ok_0.interval_inclusion_messages@[i].signature@
                    == r2->Ok_0.interval_inclusion_messages@[i].signature@
            },
{
    lemma_generate_deterministic(r1->Ok_0, r2->Ok_0, p, price, slot_number);
}

/// Law: every statement of a bundle carries the slot it was generated
/// for, and every signature in the bundle verifies against the bundle's
/// signer identity over the canonical encoding of its own statement.
pub proof fn lemma_bundle_statements_consistent<S: SignatureProvider>(
    m: OracleMessage,
    p: S,
    price: Price,
    slot_number: u64,
)
    requires
        spec_oracle_message_ok(m, p, price, slot_number),
    ensures
        m.value_message.message.slot_number == slot_number,
        forall|i: int|
            0 <= i < m.interval_inclusion_messages@.len()
                ==> #[trigger] m.interval_inclusion_messages@[i].message.slot_number == slot_number,
        m.validator_public_key@ == p.spec_identity(),
        p.spec_signature_verifies(spec_price_value_ssz(price.value, slot_number)),
        forall|i: int|
            0 <= i < m.interval_inclusion_messages@.len() ==> spec_signed_inclusion_ok(
                #[trigger] m.interval_inclusion_messages@[i],
                p,
            ),
{
}

/// The re-scaled price still fits in a machine word, and so does its
/// product with the reduced precision factor.
proof fn lemma_scaled_fits(p: int, basis_points: int)
    requires
        0 <= p,
        0 <= basis_points <= ONE_IN_BASIS_POINTS + INTERVAL_SIZE_BASIS_POINTS,
        p * (ONE_IN_BASIS_POINTS + INTERVAL_SIZE_BASIS_POINTS) <= u64::MAX,
    ensures
        0 <= p * basis_points <= u64::MAX,
        0 <= (p * basis_points / (ONE_IN_BASIS_POINTS as int)) * INTERVAL_PRECISION_FACTOR
            <= u64::MAX,
{
    let x = p * basis_points;
    assert(0 <= p * basis_points <= p * 10020) by (nonlinear_arith)
        requires
            0 <= p,
            0 <= basis_points <= 10020,
    ;
    assert((x / 10000) * 100 <= x) by (nonlinear_arith)
        requires
            0 <= x,
    ;
}

} // verus!
