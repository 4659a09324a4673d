use hardfork_since::epoch::EpochFraction;

fn frac(number: u64, index: u64, length: u64) -> EpochFraction {
    EpochFraction { number, index, length }
}

#[test]
fn well_formed_boundary() {
    assert!(frac(7, 0, 0).is_well_formed());
    assert!(frac(7, 0, 10).is_well_formed());
    assert!(frac(7, 9, 10).is_well_formed());
    assert!(!frac(7, 10, 10).is_well_formed());
    assert!(!frac(7, 11, 10).is_well_formed());
    assert!(!frac(7, 1, 0).is_well_formed());
}

#[test]
fn ordering_same_number_by_fraction() {
    assert!(frac(1, 2, 10).lt(&frac(1, 3, 10)));
    assert!(!frac(1, 3, 10).lt(&frac(1, 2, 10)));
    assert!(!frac(1, 2, 10).lt(&frac(1, 2, 10)));
    // different denominators: 1/3 < 2/5
    assert!(frac(4, 1, 3).lt(&frac(4, 2, 5)));
    // a zero length reads as the fraction zero
    assert!(frac(4, 0, 0).lt(&frac(4, 1, 5)));
}

#[test]
fn ordering_across_numbers() {
    assert!(frac(1, 9, 10).lt(&frac(2, 0, 10)));
    assert!(!frac(2, 0, 10).lt(&frac(1, 9, 10)));
}

#[test]
fn malformed_fraction_spans_whole_epochs() {
    // (0, 20, 10) carries the rational value 2, past (1, 9, 10)
    assert!(frac(1, 9, 10).lt(&frac(0, 20, 10)));
    assert!(!frac(0, 20, 10).lt(&frac(1, 9, 10)));
    // and equals (2, 0, 10) exactly
    assert!(!frac(0, 20, 10).lt(&frac(2, 0, 10)));
    assert!(!frac(2, 0, 10).lt(&frac(0, 20, 10)));
}

#[test]
fn le_is_the_reflexive_closure() {
    assert!(frac(1, 2, 10).le(&frac(1, 2, 10)));
    assert!(frac(1, 2, 10).le(&frac(1, 3, 10)));
    assert!(!frac(1, 3, 10).le(&frac(1, 2, 10)));
}

#[test]
fn to_rational_normalizes() {
    assert_eq!(frac(0, 25, 10).to_rational(), (2, 5, 10));
    assert_eq!(frac(1, 9, 10).to_rational(), (1, 9, 10));
    assert_eq!(frac(3, 0, 0).to_rational(), (3, 0, 1));
    assert_eq!(frac(0, 10, 10).to_rational(), (1, 0, 10));
}

#[test]
fn fits_respects_wire_widths() {
    assert!(frac(0xFF_FFFF, 0xFFFF, 0xFFFF).fits());
    assert!(!frac(0x100_0000, 0, 0).fits());
    assert!(!frac(0, 0x1_0000, 0).fits());
    assert!(!frac(0, 0, 0x1_0000).fits());
}

#[test]
fn lt_sum_adds_exact_rationals() {
    // 6.5 < 5.6 + 1.0 = 6.6
    assert!(frac(6, 5, 10).lt_sum(&frac(5, 6, 10), &frac(0, 10, 10)));
    // 6.6 reaches it
    assert!(!frac(6, 6, 10).lt_sum(&frac(5, 6, 10), &frac(0, 10, 10)));
    // mixed denominators: 1/2 + 1/3 = 5/6
    assert!(frac(0, 4, 6).lt_sum(&frac(0, 1, 2), &frac(0, 1, 3)));
    assert!(!frac(0, 5, 6).lt_sum(&frac(0, 1, 2), &frac(0, 1, 3)));
}
