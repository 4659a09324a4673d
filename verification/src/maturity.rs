//! The consensus decision for a since condition: given a decoded descriptor,
//! the chain position the spending transaction is validated at, the position
//! at which the spent output was committed, and the active hard-fork switch,
//! classify the input as mature, immature, or invalid.

use crate::epoch::EpochFraction;
use crate::hardfork::{HardForkFeature, HardForkSwitch};
use crate::since::{SinceField, SinceFlavor, SinceMetric, SinceValue};
use vstd::prelude::*;

verus! {

/// The outcome of a maturity check. `Immature` is retryable: the condition
/// may become satisfied as the chain advances. `Invalid` is permanent: no
/// later chain position satisfies it.
#[derive(Clone, Copy, Debug, PartialEq, Eq, Structural)]
pub enum Maturity {
    /// The since condition is satisfied at the current position.
    Mature,
    /// The since condition is not yet satisfied but may become so.
    Immature,
    /// The descriptor can never be satisfied under the governing regime.
    Invalid,
}

impl Maturity {
    /// Stable textual marker of the outcome, for callers that classify
    /// rejections by string: a retryable not-yet-mature condition and a
    /// permanently invalid descriptor keep distinguishable markers.
    pub fn marker(&self) -> (r: &'static str)
        ensures
            self is Mature ==> r@ == "Mature"@,
            self is Immature ==> r@ == "Immature"@,
            self is Invalid ==> r@ == "InvalidSince"@,
    {
        match self {
            Maturity::Mature => "Mature",
            Maturity::Immature => "Immature",
            Maturity::Invalid => "InvalidSince",
        }
    }
}

/// The three outcome markers are pairwise distinct, so automated callers can
/// tell a retryable rejection from a permanent one.
pub proof fn lemma_markers_distinct()
    ensures
        "Mature"@ != "Immature"@,
        "Mature"@ != "InvalidSince"@,
        "Immature"@ != "InvalidSince"@,
{
    reveal_strlit("Mature");
    reveal_strlit("Immature");
    reveal_strlit("InvalidSince");
    assert("Mature"@.len() == 6);
    assert("Immature"@.len() == 8);
    assert("InvalidSince"@.len() == 12);
}

/// The chain positions a maturity decision compares against: the tip the
/// spending transaction is validated at and the position at which the spent
/// output was committed, each in all three metrics. Supplied per call and
/// never mutated.
#[derive(Clone, Copy, Debug)]
pub struct ValidationContext {
    /// Block number of the validation tip.
    pub tip_block_number: u64,
    /// Epoch position of the validation tip.
    pub tip_epoch: EpochFraction,
    /// Median timestamp at the validation tip, in milliseconds.
    pub tip_timestamp: u64,
    /// Block number at which the spent output was committed.
    pub input_block_number: u64,
    /// Epoch position at which the spent output was committed.
    pub input_epoch: EpochFraction,
    /// Median timestamp at the spent output's commit position.
    pub input_timestamp: u64,
}

impl ValidationContext {
    /// Both epoch positions fit the wire format's sub-field widths, as every
    /// position taken from an encoded chain header does.
    pub open spec fn spec_fits(self) -> bool {
        self.tip_epoch.spec_fits() && self.input_epoch.spec_fits()
    }
}

/// The feature that selects between the legacy and the strict regime of the
/// since check.
pub open spec fn spec_governing_feature() -> HardForkFeature {
    HardForkFeature::RfcPr0223
}

/// The classification of a since condition, with the regime fixed by
/// `strict`.
///
/// An unknown metric is invalid in both regimes. A plain metric compares the
/// tip against the descriptor's value, the relative flavor first adding the
/// spent output's commit position. The epoch metric compares exact
/// rationals the same way; under the strict regime a malformed fraction is
/// invalid regardless of position, while the legacy regime compares its raw
/// rational value like any other.
pub open spec fn spec_classify(s: SinceField, ctx: ValidationContext, strict: bool) -> Maturity {
    match s.metric {
        SinceMetric::Unknown => Maturity::Invalid,
        SinceMetric::BlockNumber => match s.value {
            SinceValue::Count(c) => {
                let target = if s.flavor is Absolute {
                    c as int
                } else {
                    ctx.input_block_number + c
                };
                if (ctx.tip_block_number as int) < target {
                    Maturity::Immature
                } else {
                    Maturity::Mature
                }
            },
            SinceValue::Epoch { .. } => Maturity::Invalid,
        },
        SinceMetric::Timestamp => match s.value {
            SinceValue::Count(c) => {
                let target = if s.flavor is Absolute {
                    c as int
                } else {
                    ctx.input_timestamp + c
                };
                if (ctx.tip_timestamp as int) < target {
                    Maturity::Immature
                } else {
                    Maturity::Mature
                }
            },
            SinceValue::Epoch { .. } => Maturity::Invalid,
        },
        SinceMetric::Epoch => match s.value {
            SinceValue::Epoch { spare, fraction } => {
                if strict && !fraction.spec_well_formed() {
                    Maturity::Invalid
                } else if s.flavor is Absolute {
                    if ctx.tip_epoch.spec_lt(fraction) {
                        Maturity::Immature
                    } else {
                        Maturity::Mature
                    }
                } else {
                    if ctx.tip_epoch.spec_lt_sum(ctx.input_epoch, fraction) {
                        Maturity::Immature
                    } else {
                        Maturity::Mature
                    }
                }
            },
            SinceValue::Count(..) => Maturity::Invalid,
        },
    }
}

/// The classification with the regime derived from the switch: the strict
/// regime governs exactly when the governing feature is active at the
/// spending position's epoch.
pub open spec fn spec_classify_under_switch(
    s: SinceField,
    ctx: ValidationContext,
    sw: HardForkSwitch,
) -> Maturity {
    spec_classify(s, ctx, sw.spec_is_active(spec_governing_feature(), ctx.tip_epoch.number))
}

/// Classifies a since condition under the regime fixed by `strict`. Never
/// panics and yields exactly one of the three outcomes.
pub fn classify(s: &SinceField, ctx: &ValidationContext, strict: bool) -> (r: Maturity)
    requires
        s.spec_wf(),
        ctx.spec_fits(),
    ensures
        r == spec_classify(*s, *ctx, strict),
{
    match s.metric {
        SinceMetric::Unknown => Maturity::Invalid,
        SinceMetric::BlockNumber => match s.value {
            SinceValue::Count(c) => {
                let reached: bool = match s.flavor {
                    SinceFlavor::Absolute => ctx.tip_block_number >= c,
                    SinceFlavor::Relative => (ctx.tip_block_number as u128) >= (
                    ctx.input_block_number as u128) + (c as u128),
                };
                if reached {
                    Maturity::Mature
                } else {
                    Maturity::Immature
                }
            },
            SinceValue::Epoch { .. } => Maturity::Invalid,
        },
        SinceMetric::Timestamp => match s.value {
            SinceValue::Count(c) => {
                let reached: bool = match s.flavor {
                    SinceFlavor::Absolute => ctx.tip_timestamp >= c,
                    SinceFlavor::Relative => (ctx.tip_timestamp as u128) >= (ctx.input_timestamp
                        as u128) + (c as u128),
                };
                if reached {
                    Maturity::Mature
                } else {
                    Maturity::Immature
                }
            },
            SinceValue::Epoch { .. } => Maturity::Invalid,
        },
        SinceMetric::Epoch => match s.value {
            SinceValue::Epoch { spare: _, fraction } => {
                if strict && !fraction.is_well_formed() {
                    Maturity::Invalid
                } else {
                    let immature: bool = match s.flavor {
                        SinceFlavor::Absolute => ctx.tip_epoch.lt(&fraction),
                        SinceFlavor::Relative => ctx.tip_epoch.lt_sum(&ctx.input_epoch, &fraction),
                    };
                    if immature {
                        Maturity::Immature
                    } else {
                        Maturity::Mature
                    }
                }
            },
            SinceValue::Count(..) => Maturity::Invalid,
        },
    }
}

/// Classifies a since condition under the regime the switch selects at the
/// spending position's epoch.
pub fn classify_under_switch(s: &SinceField, ctx: &ValidationContext, sw: &HardForkSwitch) -> (r:
    Maturity)
    requires
        s.spec_wf(),
        ctx.spec_fits(),
    ensures
        r == spec_classify_under_switch(*s, *ctx, *sw),
{
    let strict = sw.is_active(HardForkFeature::RfcPr0223, ctx.tip_epoch.number);
    classify(s, ctx, strict)
}

/// Under the strict regime, a malformed epoch descriptor is invalid at every
/// chain position.
pub proof fn lemma_strict_rejects_malformed(s: SinceField)
    requires
        s.metric is Epoch,
        s.value matches SinceValue::Epoch { spare, fraction } && !fraction.spec_well_formed(),
    ensures
        forall|ctx: ValidationContext| spec_classify(s, ctx, true) == Maturity::Invalid,
{
}

/// Under the legacy regime, the same malformed epoch descriptor is never
/// invalid: the decision is mature or immature by the raw rational
/// comparison alone.
pub proof fn lemma_legacy_tolerates_malformed(s: SinceField, ctx: ValidationContext)
    requires
        s.metric is Epoch,
        s.value matches SinceValue::Epoch { .. },
    ensures
        spec_classify(s, ctx, false) != Maturity::Invalid,
        s.value matches SinceValue::Epoch { spare, fraction } ==> spec_classify(s, ctx, false) == (
        if (if s.flavor is Absolute {
            ctx.tip_epoch.spec_lt(fraction)
        } else {
            ctx.tip_epoch.spec_lt_sum(ctx.input_epoch, fraction)
        }) {
            Maturity::Immature
        } else {
            Maturity::Mature
        }),
{
}

/// The regime is chosen at the spending position, not at the position where
/// the descriptor was created: the same malformed epoch descriptor that the
/// legacy regime tolerates at a tip before activation becomes invalid at any
/// tip at or past activation, while it is still unconfirmed.
pub proof fn lemma_regime_follows_spending_position(
    s: SinceField,
    before: ValidationContext,
    after: ValidationContext,
    sw: HardForkSwitch,
)
    requires
        s.metric is Epoch,
        s.value matches SinceValue::Epoch { spare, fraction } && !fraction.spec_well_formed(),
        before.tip_epoch.number < sw.spec_epoch_of(spec_governing_feature()),
        after.tip_epoch.number >= sw.spec_epoch_of(spec_governing_feature()),
    ensures
        spec_classify_under_switch(s, before, sw) != Maturity::Invalid,
        spec_classify_under_switch(s, after, sw) == Maturity::Invalid,
{
}

} // verus!
