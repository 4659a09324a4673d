use hardfork_since::epoch::EpochFraction;
use hardfork_since::maturity::{classify, classify_under_switch, Maturity, ValidationContext};
use hardfork_since::scenarios::{CheckAbsoluteEpochSince, CheckRelativeEpochSince};
use hardfork_since::since::{decode, since_from_absolute_epoch, since_from_relative_epoch};

fn frac(number: u64, index: u64, length: u64) -> EpochFraction {
    EpochFraction { number, index, length }
}

fn ctx_at(tip: EpochFraction, input: EpochFraction) -> ValidationContext {
    ValidationContext {
        tip_block_number: 0,
        tip_epoch: tip,
        tip_timestamp: 0,
        input_block_number: 0,
        input_epoch: input,
        input_timestamp: 0,
    }
}

fn absolute_verdict(target: EpochFraction, tip: EpochFraction, strict: bool) -> Maturity {
    let s = decode(since_from_absolute_epoch(target));
    classify(&s, &ctx_at(tip, tip), strict)
}

#[test]
fn absolute_epoch_legacy_scenario() {
    // genesis epoch length 10, tip at (1, 2, 10)
    let tip = frac(1, 2, 10);
    assert_eq!(absolute_verdict(frac(1, 3, 10), tip, false), Maturity::Immature);
    assert_eq!(absolute_verdict(frac(1, 2, 10), tip, false), Maturity::Mature);
    assert_eq!(absolute_verdict(frac(1, 0, 0), tip, false), Maturity::Mature);
    // legacy also tolerates index above a zero length
    assert_eq!(absolute_verdict(frac(1, 1, 0), tip, false), Maturity::Mature);
}

#[test]
fn absolute_epoch_legacy_boundary() {
    // tip at (1, 8, 10): (1, 9, 10) not yet reached, (1, 8, 10) reached
    let tip = frac(1, 8, 10);
    assert_eq!(absolute_verdict(frac(1, 9, 10), tip, false), Maturity::Immature);
    assert_eq!(absolute_verdict(frac(1, 8, 10), tip, false), Maturity::Mature);
    // the malformed (0, 19, 10) carries the value 1.9: immature at 1.8
    assert_eq!(absolute_verdict(frac(0, 19, 10), tip, false), Maturity::Immature);
    assert_eq!(absolute_verdict(frac(0, 19, 10), frac(1, 9, 10), false), Maturity::Mature);
}

#[test]
fn absolute_epoch_strict_scenario() {
    // after activation: malformed descriptors are invalid wherever the tip is
    let tip = frac(2, 0, 10);
    assert_eq!(absolute_verdict(frac(2, 1, 0), tip, true), Maturity::Invalid);
    assert_eq!(absolute_verdict(frac(0, 20, 10), tip, true), Maturity::Invalid);
    assert_eq!(absolute_verdict(frac(1, 10, 10), tip, true), Maturity::Invalid);
    assert_eq!(absolute_verdict(frac(0, 20, 10), frac(3, 0, 10), true), Maturity::Invalid);
    // the degenerate (2, 0, 0) stays well-formed and compares by position
    assert_eq!(absolute_verdict(frac(2, 0, 0), tip, true), Maturity::Mature);
    assert_eq!(absolute_verdict(frac(3, 0, 0), tip, true), Maturity::Immature);
}

#[test]
fn same_malformed_descriptor_across_both_regimes() {
    let tip = frac(2, 0, 10);
    let target = frac(0, 20, 10);
    assert_eq!(absolute_verdict(target, tip, false), Maturity::Mature);
    assert_eq!(absolute_verdict(target, tip, true), Maturity::Invalid);
}

#[test]
fn relative_epoch_well_formed() {
    // committed at (1, 6, 10), demanding one whole epoch
    let raw = since_from_relative_epoch(frac(1, 0, 0));
    let s = decode(raw);
    let input = frac(1, 6, 10);
    assert_eq!(classify(&s, &ctx_at(frac(2, 5, 10), input), false), Maturity::Immature);
    assert_eq!(classify(&s, &ctx_at(frac(2, 6, 10), input), false), Maturity::Mature);
}

#[test]
fn relative_epoch_malformed_across_regimes() {
    // (0, 10, 10) is malformed but carries the value 1.0
    let raw = since_from_relative_epoch(frac(0, 10, 10));
    let s = decode(raw);
    let input = frac(5, 6, 10);
    assert_eq!(classify(&s, &ctx_at(frac(6, 5, 10), input), false), Maturity::Immature);
    assert_eq!(classify(&s, &ctx_at(frac(6, 6, 10), input), false), Maturity::Mature);
    assert_eq!(classify(&s, &ctx_at(frac(7, 0, 10), input), true), Maturity::Invalid);
}

#[test]
fn unknown_metric_is_invalid_in_both_regimes() {
    let s = decode((3u64 << 61) | 1);
    let ctx = ctx_at(frac(9, 0, 10), frac(1, 0, 10));
    assert_eq!(classify(&s, &ctx, false), Maturity::Invalid);
    assert_eq!(classify(&s, &ctx, true), Maturity::Invalid);
}

#[test]
fn block_number_metric_compares_positions() {
    let abs = decode(500);
    let mut ctx = ctx_at(frac(0, 0, 10), frac(0, 0, 10));
    ctx.tip_block_number = 499;
    assert_eq!(classify(&abs, &ctx, false), Maturity::Immature);
    ctx.tip_block_number = 500;
    assert_eq!(classify(&abs, &ctx, true), Maturity::Mature);

    let rel = decode((1u64 << 63) | 100);
    ctx.input_block_number = 450;
    ctx.tip_block_number = 549;
    assert_eq!(classify(&rel, &ctx, false), Maturity::Immature);
    ctx.tip_block_number = 550;
    assert_eq!(classify(&rel, &ctx, false), Maturity::Mature);
}

#[test]
fn timestamp_metric_compares_positions() {
    let abs = decode((2u64 << 61) | 1_000_000);
    let mut ctx = ctx_at(frac(0, 0, 10), frac(0, 0, 10));
    ctx.tip_timestamp = 999_999;
    assert_eq!(classify(&abs, &ctx, false), Maturity::Immature);
    ctx.tip_timestamp = 1_000_000;
    assert_eq!(classify(&abs, &ctx, false), Maturity::Mature);

    let rel = decode((1u64 << 63) | (2u64 << 61) | 500);
    ctx.input_timestamp = 1_000_000;
    ctx.tip_timestamp = 1_000_499;
    assert_eq!(classify(&rel, &ctx, true), Maturity::Immature);
    ctx.tip_timestamp = 1_000_500;
    assert_eq!(classify(&rel, &ctx, true), Maturity::Mature);
}

#[test]
fn switch_selects_regime_at_the_spending_position() {
    let sw = CheckRelativeEpochSince::switch(0);
    assert_eq!(sw.rfc_pr_0223, 7);
    let raw = since_from_relative_epoch(frac(0, 10, 10));
    let s = decode(raw);
    let input = frac(5, 6, 10);
    // before activation the malformed distance is tolerated
    assert_eq!(classify_under_switch(&s, &ctx_at(frac(6, 6, 10), input), &sw), Maturity::Mature);
    // at the spending position past activation the same transaction is invalid
    assert_eq!(classify_under_switch(&s, &ctx_at(frac(7, 0, 10), input), &sw), Maturity::Invalid);
}

#[test]
fn outcome_markers_are_stable_and_distinct() {
    assert_eq!(Maturity::Mature.marker(), "Mature");
    assert_eq!(Maturity::Immature.marker(), "Immature");
    assert_eq!(Maturity::Invalid.marker(), "InvalidSince");
    assert_ne!(Maturity::Immature.marker(), Maturity::Invalid.marker());
}

#[test]
fn absolute_scenario_descriptor() {
    assert_eq!(CheckAbsoluteEpochSince::genesis_epoch_length(), 10);
    let entries = CheckAbsoluteEpochSince::hardfork_entries();
    assert_eq!(entries.rfc_pr_0223, Some(2));
    assert_eq!(CheckAbsoluteEpochSince::switch(9).rfc_pr_0223, 2);

    let tip = frac(1, 2, 10);
    let ctx = ctx_at(tip, tip);
    let raw = since_from_absolute_epoch(frac(1, 3, 10));
    assert_eq!(CheckAbsoluteEpochSince::expected_verdict(raw, &ctx, 0), Maturity::Immature);
    // (0, 20, 10) reads as epoch 2.0: not yet reached at 1.2, tolerated before activation
    let raw2 = since_from_absolute_epoch(frac(0, 20, 10));
    assert_eq!(CheckAbsoluteEpochSince::expected_verdict(raw2, &ctx, 0), Maturity::Immature);
    let after = ctx_at(frac(2, 0, 10), frac(2, 0, 10));
    assert_eq!(CheckAbsoluteEpochSince::expected_verdict(raw2, &after, 0), Maturity::Invalid);
}

#[test]
fn relative_scenario_descriptor() {
    assert_eq!(CheckRelativeEpochSince::genesis_epoch_length(), 10);
    let entries = CheckRelativeEpochSince::hardfork_entries();
    assert_eq!(entries.rfc_pr_0223, Some(7));

    let raw = since_from_relative_epoch(frac(1, 1, 0));
    let input = frac(3, 6, 10);
    // (1, 1, 0) is malformed yet reads as one whole epoch before activation
    let before = ctx_at(frac(4, 6, 10), input);
    assert_eq!(CheckRelativeEpochSince::expected_verdict(raw, &before, 0), Maturity::Mature);
    let after = ctx_at(frac(7, 0, 10), input);
    assert_eq!(CheckRelativeEpochSince::expected_verdict(raw, &after, 0), Maturity::Invalid);
}
