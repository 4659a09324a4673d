use hardfork_since::epoch::EpochFraction;
use hardfork_since::since::{
    decode, encode, since_from_absolute_epoch, since_from_relative_epoch, SinceFlavor, SinceMetric,
    SinceValue,
};

fn frac(number: u64, index: u64, length: u64) -> EpochFraction {
    EpochFraction { number, index, length }
}

#[test]
fn round_trip_assorted_values() {
    let samples: Vec<u64> = vec![
        0,
        1,
        u64::MAX,
        0x2000_0A00_0300_0001,
        0xA000_0A00_0200_0001,
        0x8000_0000_0000_0000,
        0x6000_0000_0000_0000,
        0x1F00_0000_0000_0000,
        0x3FFF_FFFF_FFFF_FFFF,
        0xDEAD_BEEF_0BAD_F00D,
        0x0123_4567_89AB_CDEF,
    ];
    for v in samples {
        assert_eq!(encode(&decode(v)), v);
    }
}

#[test]
fn round_trip_sweeps_selector_and_payload_bits() {
    for top in 0u64..8 {
        for bit in 0u64..61 {
            let v: u64 = (top << 61) | (1u64 << bit) | 5;
            assert_eq!(encode(&decode(v)), v);
        }
    }
}

#[test]
fn decode_absolute_epoch_fields() {
    let raw: u64 = 0x2000_0A00_0300_0001;
    let s = decode(raw);
    assert_eq!(s.flavor, SinceFlavor::Absolute);
    assert_eq!(s.metric, SinceMetric::Epoch);
    assert_eq!(s.value, SinceValue::Epoch { spare: 0, fraction: frac(1, 3, 10) });
}

#[test]
fn decode_relative_flavor_bit() {
    let raw: u64 = 0xA000_0A00_0300_0001;
    let s = decode(raw);
    assert_eq!(s.flavor, SinceFlavor::Relative);
    assert_eq!(s.metric, SinceMetric::Epoch);
}

#[test]
fn decode_block_number_and_timestamp_metrics() {
    let s = decode(77);
    assert_eq!(s.flavor, SinceFlavor::Absolute);
    assert_eq!(s.metric, SinceMetric::BlockNumber);
    assert_eq!(s.value, SinceValue::Count(77));

    let t = decode((2u64 << 61) | 123_456);
    assert_eq!(t.metric, SinceMetric::Timestamp);
    assert_eq!(t.value, SinceValue::Count(123_456));
}

#[test]
fn decode_reserved_selector_is_unknown() {
    let s = decode((3u64 << 61) | 42);
    assert_eq!(s.metric, SinceMetric::Unknown);
    assert_eq!(s.value, SinceValue::Count(42));
}

#[test]
fn decode_keeps_spare_payload_bits() {
    let raw: u64 = (1u64 << 61) | (0x15u64 << 56) | (10u64 << 40) | (3u64 << 24) | 9;
    let s = decode(raw);
    assert_eq!(s.value, SinceValue::Epoch { spare: 0x15, fraction: frac(9, 3, 10) });
    assert_eq!(encode(&s), raw);
}

#[test]
fn since_from_absolute_epoch_exact_encoding() {
    let raw = since_from_absolute_epoch(frac(1, 2, 10));
    assert_eq!(raw, 0x2000_0A00_0200_0001);
    assert_eq!(decode(raw).value, SinceValue::Epoch { spare: 0, fraction: frac(1, 2, 10) });
}

#[test]
fn since_from_relative_epoch_exact_encoding() {
    let raw = since_from_relative_epoch(frac(1, 2, 10));
    assert_eq!(raw, 0xA000_0A00_0200_0001);
    assert_eq!(decode(raw).flavor, SinceFlavor::Relative);
}
