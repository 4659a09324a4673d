//! Lossless codec for the 64-bit since descriptor attached to a transaction
//! input.
//!
//! Layout of the raw value, from the top bit down: one flavor bit (`0` for
//! absolute, `1` for relative), a two-bit metric selector (`00` block number,
//! `01` epoch, `10` timestamp, `11` reserved), and a 61-bit value payload.
//! Under the epoch metric the payload splits into fixed-width sub-fields:
//! `number` in the low 24 bits, `index` in the next 16, `length` in the next
//! 16, and the top 5 payload bits spare. Decoding never fails and every
//! 64-bit pattern round-trips exactly through decode and encode; validity is
//! a concern of the maturity layer, not of the codec.

use crate::epoch::EpochFraction;
use vstd::prelude::*;

verus! {

/// Mask of the 61-bit value payload.
pub const SINCE_VALUE_MASK: u64 = 0x1FFF_FFFF_FFFF_FFFF;

/// How the descriptor's value is anchored.
#[derive(Clone, Copy, Debug, PartialEq, Eq, Structural)]
pub enum SinceFlavor {
    /// Measured from genesis.
    Absolute,
    /// Measured from the position at which the spent output was committed.
    Relative,
}

/// The unit the descriptor's value is compared in.
#[derive(Clone, Copy, Debug, PartialEq, Eq, Structural)]
pub enum SinceMetric {
    /// Block numbers.
    BlockNumber,
    /// Epoch positions, carried as an [`EpochFraction`].
    Epoch,
    /// Median timestamps, in milliseconds.
    Timestamp,
    /// The reserved selector; the validator treats it as invalid.
    Unknown,
}

/// The decoded value payload.
#[derive(Clone, Copy, Debug, PartialEq, Eq, Structural)]
pub enum SinceValue {
    /// A plain 61-bit quantity: a block number, a timestamp, or the payload
    /// of a descriptor with the reserved metric selector.
    Count(u64),
    /// An epoch position, together with the 5 spare payload bits that the
    /// sub-fields do not cover; the codec keeps them so that decoding loses
    /// nothing.
    Epoch { spare: u64, fraction: EpochFraction },
}

/// A decoded since descriptor.
#[derive(Clone, Copy, Debug, PartialEq, Eq, Structural)]
pub struct SinceField {
    /// How the value is anchored.
    pub flavor: SinceFlavor,
    /// The unit of comparison.
    pub metric: SinceMetric,
    /// The value payload.
    pub value: SinceValue,
}

impl SinceField {
    /// Structural soundness of a decoded descriptor: the payload shape
    /// matches the metric and every carried quantity fits its bit width.
    /// Everything [`decode`] returns satisfies this.
    pub open spec fn spec_wf(self) -> bool {
        match self.value {
            SinceValue::Count(c) => !(self.metric is Epoch) && c <= SINCE_VALUE_MASK,
            SinceValue::Epoch { spare, fraction } => self.metric is Epoch && spare < 0x20
                && fraction.spec_fits(),
        }
    }
}

/// The flavor encoded in the top bit of a raw since value.
pub open spec fn spec_flavor_of(v: u64) -> SinceFlavor {
    if v >> 63 == 0 {
        SinceFlavor::Absolute
    } else {
        SinceFlavor::Relative
    }
}

/// The metric selected by the two bits below the flavor bit.
pub open spec fn spec_metric_of(v: u64) -> SinceMetric {
    if (v >> 61) & 3 == 0 {
        SinceMetric::BlockNumber
    } else if (v >> 61) & 3 == 1 {
        SinceMetric::Epoch
    } else if (v >> 61) & 3 == 2 {
        SinceMetric::Timestamp
    } else {
        SinceMetric::Unknown
    }
}

/// The epoch-metric payload split into its fixed-width sub-fields.
pub open spec fn spec_epoch_value_of(payload: u64) -> SinceValue {
    SinceValue::Epoch {
        spare: payload >> 56,
        fraction: EpochFraction {
            number: payload & 0xFF_FFFF,
            index: (payload >> 24) & 0xFFFF,
            length: (payload >> 40) & 0xFFFF,
        },
    }
}

/// The descriptor a raw 64-bit since value stands for.
pub open spec fn spec_decode(v: u64) -> SinceField {
    SinceField {
        flavor: spec_flavor_of(v),
        metric: spec_metric_of(v),
        value: if spec_metric_of(v) is Epoch {
            spec_epoch_value_of(v & SINCE_VALUE_MASK)
        } else {
            SinceValue::Count(v & SINCE_VALUE_MASK)
        },
    }
}

/// The raw 64-bit value a descriptor packs into.
pub open spec fn spec_encode(s: SinceField) -> u64 {
    (spec_flavor_bit(s.flavor) << 63) | (spec_metric_bits(s.metric) << 61) | spec_payload_of(
        s.value,
    )
}

/// The flavor's single-bit encoding.
pub open spec fn spec_flavor_bit(f: SinceFlavor) -> u64 {
    match f {
        SinceFlavor::Absolute => 0,
        SinceFlavor::Relative => 1,
    }
}

/// The metric selector's two-bit encoding.
pub open spec fn spec_metric_bits(m: SinceMetric) -> u64 {
    match m {
        SinceMetric::BlockNumber => 0,
        SinceMetric::Epoch => 1,
        SinceMetric::Timestamp => 2,
        SinceMetric::Unknown => 3,
    }
}

/// The 61-bit payload a value packs into.
pub open spec fn spec_payload_of(v: SinceValue) -> u64 {
    match v {
        SinceValue::Count(c) => c & SINCE_VALUE_MASK,
        SinceValue::Epoch { spare, fraction } => ((spare & 0x1F) << 56) | ((fraction.length
            & 0xFFFF) << 40) | ((fraction.index & 0xFFFF) << 24) | (fraction.number & 0xFF_FFFF),
    }
}

/// Splits a raw since value into flavor, metric, and typed payload. Never
/// fails: every 64-bit pattern yields a descriptor, and a reserved metric
/// selector yields [`SinceMetric::Unknown`].
pub fn decode(v: u64) -> (r: SinceField)
    ensures
        r == spec_decode(v),
        r.spec_wf(),
{
    let flavor = if v >> 63 == 0 {
        SinceFlavor::Absolute
    } else {
        SinceFlavor::Relative
    };
    let selector: u64 = (v >> 61) & 3;
    let payload: u64 = v & SINCE_VALUE_MASK;
    proof {
        assert(v & 0x1FFF_FFFF_FFFF_FFFF <= 0x1FFF_FFFF_FFFF_FFFF) by (bit_vector);
        assert((v & 0x1FFF_FFFF_FFFF_FFFF) >> 56 < 0x20) by (bit_vector);
        assert((v & 0x1FFF_FFFF_FFFF_FFFF) & 0xFF_FFFF < 0x100_0000) by (bit_vector);
        assert(((v & 0x1FFF_FFFF_FFFF_FFFF) >> 24) & 0xFFFF < 0x1_0000) by (bit_vector);
        assert(((v & 0x1FFF_FFFF_FFFF_FFFF) >> 40) & 0xFFFF < 0x1_0000) by (bit_vector);
    }
    if selector == 1 {
        SinceField {
            flavor,
            metric: SinceMetric::Epoch,
            value: SinceValue::Epoch {
                spare: payload >> 56,
                fraction: EpochFraction {
                    number: payload & 0xFF_FFFF,
                    index: (payload >> 24) & 0xFFFF,
                    length: (payload >> 40) & 0xFFFF,
                },
            },
        }
    } else {
        let metric = if selector == 0 {
            SinceMetric::BlockNumber
        } else if selector == 2 {
            SinceMetric::Timestamp
        } else {
            SinceMetric::Unknown
        };
        SinceField { flavor, metric, value: SinceValue::Count(payload) }
    }
}

/// Packs a descriptor back into its raw 64-bit value: the exact inverse of
/// [`decode`].
pub fn encode(s: &SinceField) -> (r: u64)
    ensures
        r == spec_encode(*s),
{
    let flavor_bit: u64 = match s.flavor {
        SinceFlavor::Absolute => 0,
        SinceFlavor::Relative => 1,
    };
    let metric_bits: u64 = match s.metric {
        SinceMetric::BlockNumber => 0,
        SinceMetric::Epoch => 1,
        SinceMetric::Timestamp => 2,
        SinceMetric::Unknown => 3,
    };
    let payload: u64 = match s.value {
        SinceValue::Count(c) => c & SINCE_VALUE_MASK,
        SinceValue::Epoch { spare, fraction } => ((spare & 0x1F) << 56u64) | ((fraction.length
            & 0xFFFF) << 40u64) | ((fraction.index & 0xFFFF) << 24u64) | (fraction.number
            & 0xFF_FFFF),
    };
    (flavor_bit << 63u64) | (metric_bits << 61u64) | payload
}

/// Encoding inverts decoding on every 64-bit value.
pub proof fn lemma_encode_decode_roundtrip(v: u64)
    ensures
        spec_encode(spec_decode(v)) == v,
{
    let p = v & SINCE_VALUE_MASK;
    assert(((v & 0x1FFF_FFFF_FFFF_FFFF) >> 56) & 0x1F == (v & 0x1FFF_FFFF_FFFF_FFFF) >> 56)
        by (bit_vector);
    assert((((v & 0x1FFF_FFFF_FFFF_FFFF) >> 24) & 0xFFFF) & 0xFFFF == ((v & 0x1FFF_FFFF_FFFF_FFFF)
        >> 24) & 0xFFFF) by (bit_vector);
    assert((((v & 0x1FFF_FFFF_FFFF_FFFF) >> 40) & 0xFFFF) & 0xFFFF == ((v & 0x1FFF_FFFF_FFFF_FFFF)
        >> 40) & 0xFFFF) by (bit_vector);
    assert(((v & 0x1FFF_FFFF_FFFF_FFFF) & 0xFF_FFFF) & 0xFF_FFFF == (v & 0x1FFF_FFFF_FFFF_FFFF)
        & 0xFF_FFFF) by (bit_vector);
    assert((v & 0x1FFF_FFFF_FFFF_FFFF) & 0x1FFF_FFFF_FFFF_FFFF == v & 0x1FFF_FFFF_FFFF_FFFF)
        by (bit_vector);
    assert((((v & 0x1FFF_FFFF_FFFF_FFFF) >> 56) << 56) | ((((v & 0x1FFF_FFFF_FFFF_FFFF) >> 40)
        & 0xFFFF) << 40) | ((((v & 0x1FFF_FFFF_FFFF_FFFF) >> 24) & 0xFFFF) << 24) | ((v
        & 0x1FFF_FFFF_FFFF_FFFF) & 0xFF_FFFF) == v & 0x1FFF_FFFF_FFFF_FFFF) by (bit_vector);
    assert(((v >> 63) << 63) | ((((v >> 61) & 3) % 4) << 61) | (v & 0x1FFF_FFFF_FFFF_FFFF) == v)
        by (bit_vector);
    assert(((v >> 61) & 3 == 0 || (v >> 61) & 3 == 1 || (v >> 61) & 3 == 2 || (v >> 61) & 3 == 3)
        && (v >> 63 == 0 || v >> 63 == 1)) by (bit_vector);
}

/// Decoding inverts encoding on every structurally sound descriptor, so the
/// decoded form carries exactly the information of the raw one.
pub proof fn lemma_decode_encode_roundtrip(s: SinceField)
    requires
        s.spec_wf(),
    ensures
        spec_decode(spec_encode(s)) == s,
{
    let f = spec_flavor_bit(s.flavor);
    let m = spec_metric_bits(s.metric);
    let p = spec_payload_of(s.value);
    assert(p <= 0x1FFF_FFFF_FFFF_FFFF ==> ((f & 1) << 63 | ((m & 3) << 61) | p) >> 63 == (f & 1)
        && (((f & 1) << 63 | ((m & 3) << 61) | p) >> 61) & 3 == (m & 3) && ((f & 1) << 63 | ((m
        & 3) << 61) | p) & 0x1FFF_FFFF_FFFF_FFFF == p) by (bit_vector);
    assert(f & 1 == f && m & 3 == m) by (bit_vector)
        requires
            f < 2,
            m < 4,
    ;
    match s.value {
        SinceValue::Count(c) => {
            assert(c & 0x1FFF_FFFF_FFFF_FFFF == c) by (bit_vector)
                requires
                    c <= 0x1FFF_FFFF_FFFF_FFFF,
            ;
        },
        SinceValue::Epoch { spare, fraction } => {
            let number = fraction.number;
            let index = fraction.index;
            let length = fraction.length;
            assert(spare < 0x20 && number < 0x100_0000 && index < 0x1_0000 && length < 0x1_0000
                ==> {
                let pl = ((spare & 0x1F) << 56) | ((length & 0xFFFF) << 40) | ((index & 0xFFFF)
                    << 24) | (number & 0xFF_FFFF);
                pl <= 0x1FFF_FFFF_FFFF_FFFF && pl >> 56 == spare && (pl >> 40) & 0xFFFF == length
                    && (pl >> 24) & 0xFFFF == index && pl & 0xFF_FFFF == number
            }) by (bit_vector);
        },
    }
}

/// The raw since value demanding an absolute epoch position: the given
/// position, under the epoch metric and the absolute flavor.
pub fn since_from_absolute_epoch(fraction: EpochFraction) -> (r: u64)
    requires
        fraction.spec_fits(),
    ensures
        r == spec_encode(
            SinceField {
                flavor: SinceFlavor::Absolute,
                metric: SinceMetric::Epoch,
                value: SinceValue::Epoch { spare: 0, fraction },
            },
        ),
        spec_decode(r) == (SinceField {
            flavor: SinceFlavor::Absolute,
            metric: SinceMetric::Epoch,
            value: SinceValue::Epoch { spare: 0, fraction },
        }),
{
    let s = SinceField {
        flavor: SinceFlavor::Absolute,
        metric: SinceMetric::Epoch,
        value: SinceValue::Epoch { spare: 0, fraction },
    };
    proof {
        lemma_decode_encode_roundtrip(s);
    }
    encode(&s)
}

/// The raw since value demanding an epoch distance from the spent output's
/// commit position: the given distance, under the epoch metric and the
/// relative flavor.
pub fn since_from_relative_epoch(fraction: EpochFraction) -> (r: u64)
    requires
        fraction.spec_fits(),
    ensures
        r == spec_encode(
            SinceField {
                flavor: SinceFlavor::Relative,
                metric: SinceMetric::Epoch,
                value: SinceValue::Epoch { spare: 0, fraction },
            },
        ),
        spec_decode(r) == (SinceField {
            flavor: SinceFlavor::Relative,
            metric: SinceMetric::Epoch,
            value: SinceValue::Epoch { spare: 0, fraction },
        }),
{
    let s = SinceField {
        flavor: SinceFlavor::Relative,
        metric: SinceMetric::Epoch,
        value: SinceValue::Epoch { spare: 0, fraction },
    };
    proof {
        lemma_decode_encode_roundtrip(s);
    }
    encode(&s)
}

} // verus!
