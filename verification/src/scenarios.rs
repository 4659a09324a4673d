//! Scenario descriptors for chains that exercise the since rules across the
//! hard-fork boundary. An external harness mines blocks and submits
//! transactions; everything it must decide — the chain parameters a scenario
//! runs with and the verdict it expects for each submission — is computed
//! and proved here.

use crate::hardfork::{HardForkConfig, HardForkSwitch};
use crate::maturity::{classify_under_switch, spec_classify, Maturity, ValidationContext};
use crate::since::{decode, spec_decode};
use vstd::prelude::*;

verus! {

/// Epoch length the scenario chains run with from genesis.
pub const SCENARIO_GENESIS_EPOCH_LENGTH: u64 = 10;

/// A chain that spends outputs under absolute epoch locks, before and after
/// strict since checking activates at epoch 2.
pub struct CheckAbsoluteEpochSince;

/// A chain that spends outputs under relative epoch locks, before and after
/// strict since checking activates at epoch 7.
pub struct CheckRelativeEpochSince;

impl CheckAbsoluteEpochSince {
    /// The epoch at which the scenario activates strict since checking.
    pub open spec fn spec_activation_epoch() -> u64 {
        2
    }

    /// Epoch length of the scenario's chain.
    pub fn genesis_epoch_length() -> (r: u64)
        ensures
            r == SCENARIO_GENESIS_EPOCH_LENGTH,
    {
        SCENARIO_GENESIS_EPOCH_LENGTH
    }

    /// The hard-fork entries the scenario writes into its chain's
    /// parameters: strict since checking pinned to epoch 2, everything else
    /// left to the chain's fallback.
    pub fn hardfork_entries() -> (r: HardForkConfig)
        ensures
            r.rfc_pr_0221 is None,
            r.rfc_pr_0222 is None,
            r.rfc_pr_0223 == Some(Self::spec_activation_epoch()),
            r.rfc_pr_0230 is None,
    {
        HardForkConfig {
            rfc_pr_0221: None,
            rfc_pr_0222: None,
            rfc_pr_0223: Some(2),
            rfc_pr_0230: None,
        }
    }

    /// The switch the scenario's node runs under, with unpinned features
    /// activating at `fallback`.
    pub fn switch(fallback: u64) -> (r: HardForkSwitch)
        ensures
            r == Self::hardfork_entries_resolved(fallback),
    {
        let entries = Self::hardfork_entries();
        match entries.complete_with_default(fallback) {
            Ok(sw) => sw,
            Err(_) => vstd::pervasive::unreached(),
        }
    }

    /// The switch the scenario's entries resolve to.
    pub open spec fn hardfork_entries_resolved(fallback: u64) -> HardForkSwitch {
        HardForkSwitch {
            rfc_pr_0221: fallback,
            rfc_pr_0222: fallback,
            rfc_pr_0223: Self::spec_activation_epoch(),
            rfc_pr_0230: fallback,
        }
    }

    /// The verdict the scenario expects when a transaction carrying the raw
    /// since value `raw` is submitted at the chain position `ctx`: the
    /// decoded descriptor classified under the strict regime exactly from
    /// epoch 2 on, whatever the fallback epoch of the remaining features.
    pub fn expected_verdict(raw: u64, ctx: &ValidationContext, fallback: u64) -> (r: Maturity)
        requires
            ctx.spec_fits(),
        ensures
            r == spec_classify(
                spec_decode(raw),
                *ctx,
                ctx.tip_epoch.number >= Self::spec_activation_epoch(),
            ),
    {
        let s = decode(raw);
        let sw = Self::switch(fallback);
        classify_under_switch(&s, ctx, &sw)
    }
}

impl CheckRelativeEpochSince {
    /// The epoch at which the scenario activates strict since checking.
    pub open spec fn spec_activation_epoch() -> u64 {
        7
    }

    /// Epoch length of the scenario's chain.
    pub fn genesis_epoch_length() -> (r: u64)
        ensures
            r == SCENARIO_GENESIS_EPOCH_LENGTH,
    {
        SCENARIO_GENESIS_EPOCH_LENGTH
    }

    /// The hard-fork entries the scenario writes into its chain's
    /// parameters: strict since checking pinned to epoch 7, everything else
    /// left to the chain's fallback.
    pub fn hardfork_entries() -> (r: HardForkConfig)
        ensures
            r.rfc_pr_0221 is None,
            r.rfc_pr_0222 is None,
            r.rfc_pr_0223 == Some(Self::spec_activation_epoch()),
            r.rfc_pr_0230 is None,
    {
        HardForkConfig {
            rfc_pr_0221: None,
            rfc_pr_0222: None,
            rfc_pr_0223: Some(7),
            rfc_pr_0230: None,
        }
    }

    /// The switch the scenario's node runs under, with unpinned features
    /// activating at `fallback`.
    pub fn switch(fallback: u64) -> (r: HardForkSwitch)
        ensures
            r == Self::hardfork_entries_resolved(fallback),
    {
        let entries = Self::hardfork_entries();
        match entries.complete_with_default(fallback) {
            Ok(sw) => sw,
            Err(_) => vstd::pervasive::unreached(),
        }
    }

    /// The switch the scenario's entries resolve to.
    pub open spec fn hardfork_entries_resolved(fallback: u64) -> HardForkSwitch {
        HardForkSwitch {
            rfc_pr_0221: fallback,
            rfc_pr_0222: fallback,
            rfc_pr_0223: Self::spec_activation_epoch(),
            rfc_pr_0230: fallback,
        }
    }

    /// The verdict the scenario expects when a transaction carrying the raw
    /// since value `raw` is submitted at the chain position `ctx`: the
    /// decoded descriptor classified under the strict regime exactly from
    /// epoch 7 on, whatever the fallback epoch of the remaining features.
    pub fn expected_verdict(raw: u64, ctx: &ValidationContext, fallback: u64) -> (r: Maturity)
        requires
            ctx.spec_fits(),
        ensures
            r == spec_classify(
                spec_decode(raw),
                *ctx,
                ctx.tip_epoch.number >= Self::spec_activation_epoch(),
            ),
    {
        let s = decode(raw);
        let sw = Self::switch(fallback);
        classify_under_switch(&s, ctx, &sw)
    }
}

} // verus!
