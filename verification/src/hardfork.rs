//! Resolution of a partial, user-supplied per-feature activation map into a
//! total, immutable hard-fork switch, validated against a network's
//! canonical defaults.

use vstd::prelude::*;

verus! {

/// Canonical activation epoch of the CKB 2021 edition on mainnet, as
/// published by `ckb-constant`.
pub const MAINNET_CKB2021_START_EPOCH: u64 = 0;

/// Canonical activation epoch of the CKB 2021 edition on testnet, as
/// published by `ckb-constant`.
pub const TESTNET_CKB2021_START_EPOCH: u64 = 0;

/// Relies on `ckb_constant::hardfork::mainnet::CKB2021_START_EPOCH` for the
/// canonical mainnet activation epoch of the CKB 2021 edition.
#[verifier::external_body]
fn mainnet_ckb2021_start_epoch() -> (r: u64)
    ensures
        r == MAINNET_CKB2021_START_EPOCH,
{
    ckb_constant::hardfork::mainnet::CKB2021_START_EPOCH
}

/// Relies on `ckb_constant::hardfork::testnet::CKB2021_START_EPOCH` for the
/// canonical testnet activation epoch of the CKB 2021 edition.
#[verifier::external_body]
fn testnet_ckb2021_start_epoch() -> (r: u64)
    ensures
        r == TESTNET_CKB2021_START_EPOCH,
{
    ckb_constant::hardfork::testnet::CKB2021_START_EPOCH
}

/// The closed set of epoch-gated protocol features.
#[derive(Clone, Copy, Debug, PartialEq, Eq, Structural)]
pub enum HardForkFeature {
    /// The feature the `rfc_pr_0221` entry configures.
    RfcPr0221,
    /// The feature the `rfc_pr_0222` entry configures.
    RfcPr0222,
    /// The feature the `rfc_pr_0223` entry configures: strict well-formedness
    /// of epoch fractions in since descriptors.
    RfcPr0223,
    /// The feature the `rfc_pr_0230` entry configures.
    RfcPr0230,
}

/// A named network with canonical activation defaults.
#[derive(Clone, Copy, Debug, PartialEq, Eq, Structural)]
pub enum Network {
    /// The main chain.
    Mainnet,
    /// The test chain.
    Testnet,
}

impl Network {
    /// The network's canonical activation epoch, shared by every feature of
    /// the CKB 2021 edition.
    pub open spec fn spec_canonical_epoch(self) -> u64 {
        match self {
            Network::Mainnet => MAINNET_CKB2021_START_EPOCH,
            Network::Testnet => TESTNET_CKB2021_START_EPOCH,
        }
    }
}

/// Why a configuration failed to resolve.
#[derive(Clone, Copy, Debug, PartialEq, Eq, Structural)]
pub enum ConfigError {
    /// A supplied activation epoch conflicts with the canonical value for
    /// the target network; `feature` names the first conflicting entry, in
    /// declaration order.
    IncorrectValue { feature: HardForkFeature, actual: u64, expected: u64 },
}

/// User-supplied, possibly partial activation epochs, one optional entry per
/// feature.
#[derive(Clone, Copy, Debug)]
pub struct HardForkConfig {
    /// Activation epoch for [`HardForkFeature::RfcPr0221`], if given.
    pub rfc_pr_0221: Option<u64>,
    /// Activation epoch for [`HardForkFeature::RfcPr0222`], if given.
    pub rfc_pr_0222: Option<u64>,
    /// Activation epoch for [`HardForkFeature::RfcPr0223`], if given.
    pub rfc_pr_0223: Option<u64>,
    /// Activation epoch for [`HardForkFeature::RfcPr0230`], if given.
    pub rfc_pr_0230: Option<u64>,
}

impl Default for HardForkConfig {
    /// The empty configuration: no feature pinned to an explicit epoch.
    fn default() -> (r: Self)
        ensures
            r.rfc_pr_0221 is None,
            r.rfc_pr_0222 is None,
            r.rfc_pr_0223 is None,
            r.rfc_pr_0230 is None,
    {
        HardForkConfig {
            rfc_pr_0221: None,
            rfc_pr_0222: None,
            rfc_pr_0223: None,
            rfc_pr_0230: None,
        }
    }
}

/// Fully resolved activation epochs: every feature has exactly one.
#[derive(Clone, Copy, Debug, PartialEq, Eq, Structural)]
pub struct HardForkSwitch {
    /// Activation epoch of [`HardForkFeature::RfcPr0221`].
    pub rfc_pr_0221: u64,
    /// Activation epoch of [`HardForkFeature::RfcPr0222`].
    pub rfc_pr_0222: u64,
    /// Activation epoch of [`HardForkFeature::RfcPr0223`].
    pub rfc_pr_0223: u64,
    /// Activation epoch of [`HardForkFeature::RfcPr0230`].
    pub rfc_pr_0230: u64,
}

impl HardForkSwitch {
    /// The activation epoch of a feature. Total: the switch has an epoch for
    /// every feature of the closed set.
    pub open spec fn spec_epoch_of(self, feature: HardForkFeature) -> u64 {
        match feature {
            HardForkFeature::RfcPr0221 => self.rfc_pr_0221,
            HardForkFeature::RfcPr0222 => self.rfc_pr_0222,
            HardForkFeature::RfcPr0223 => self.rfc_pr_0223,
            HardForkFeature::RfcPr0230 => self.rfc_pr_0230,
        }
    }

    /// Whether a feature is active at the given epoch.
    pub open spec fn spec_is_active(self, feature: HardForkFeature, epoch: u64) -> bool {
        epoch >= self.spec_epoch_of(feature)
    }

    /// The activation epoch of a feature.
    pub fn epoch_of(&self, feature: HardForkFeature) -> (r: u64)
        ensures
            r == self.spec_epoch_of(feature),
    {
        match feature {
            HardForkFeature::RfcPr0221 => self.rfc_pr_0221,
            HardForkFeature::RfcPr0222 => self.rfc_pr_0222,
            HardForkFeature::RfcPr0223 => self.rfc_pr_0223,
            HardForkFeature::RfcPr0230 => self.rfc_pr_0230,
        }
    }

    /// Whether a feature is active at the given epoch.
    pub fn is_active(&self, feature: HardForkFeature, epoch: u64) -> (r: bool)
        ensures
            r == self.spec_is_active(feature, epoch),
    {
        epoch >= self.epoch_of(feature)
    }
}

impl HardForkConfig {
    /// The explicit entry for a feature, if the configuration has one.
    pub open spec fn spec_entry(self, feature: HardForkFeature) -> Option<u64> {
        match feature {
            HardForkFeature::RfcPr0221 => self.rfc_pr_0221,
            HardForkFeature::RfcPr0222 => self.rfc_pr_0222,
            HardForkFeature::RfcPr0223 => self.rfc_pr_0223,
            HardForkFeature::RfcPr0230 => self.rfc_pr_0230,
        }
    }

    /// The switch this configuration resolves to when every unspecified
    /// entry falls back to `fallback`.
    pub open spec fn spec_resolved(self, fallback: u64) -> HardForkSwitch {
        HardForkSwitch {
            rfc_pr_0221: self.rfc_pr_0221.unwrap_or(fallback),
            rfc_pr_0222: self.rfc_pr_0222.unwrap_or(fallback),
            rfc_pr_0223: self.rfc_pr_0223.unwrap_or(fallback),
            rfc_pr_0230: self.rfc_pr_0230.unwrap_or(fallback),
        }
    }

    /// The first entry, in declaration order, whose explicit value differs
    /// from `expected`, with that value; `None` when every explicit entry
    /// agrees.
    pub open spec fn spec_first_conflict(self, expected: u64) -> Option<(HardForkFeature, u64)> {
        if self.rfc_pr_0221 matches Some(v) && v != expected {
            Some((HardForkFeature::RfcPr0221, self.rfc_pr_0221.unwrap()))
        } else if self.rfc_pr_0222 matches Some(v) && v != expected {
            Some((HardForkFeature::RfcPr0222, self.rfc_pr_0222.unwrap()))
        } else if self.rfc_pr_0223 matches Some(v) && v != expected {
            Some((HardForkFeature::RfcPr0223, self.rfc_pr_0223.unwrap()))
        } else if self.rfc_pr_0230 matches Some(v) && v != expected {
            Some((HardForkFeature::RfcPr0230, self.rfc_pr_0230.unwrap()))
        } else {
            None
        }
    }

    /// Checks one explicit entry against the canonical value.
    fn check_entry(entry: &Option<u64>, feature: HardForkFeature, expected: u64) -> (r: Result<
        u64,
        ConfigError,
    >)
        ensures
            match r {
                Ok(v) => !(*entry matches Some(w) && w != expected) && v == entry.unwrap_or(
                    expected,
                ),
                Err(e) => *entry matches Some(w) && w != expected && e
                    == (ConfigError::IncorrectValue {
                    feature,
                    actual: entry.unwrap(),
                    expected,
                }),
            },
    {
        match entry {
            Some(v) => {
                if *v != expected {
                    Err(ConfigError::IncorrectValue { feature, actual: *v, expected })
                } else {
                    Ok(*v)
                }
            },
            None => Ok(expected),
        }
    }

    /// Resolves against a fixed canonical epoch: every explicit entry must
    /// equal it, and every unspecified entry falls back to it. All or
    /// nothing: the first conflicting feature, in declaration order, fails
    /// the whole resolution.
    fn complete_against_canonical(&self, expected: u64) -> (r: Result<HardForkSwitch, ConfigError>)
        ensures
            match r {
                Ok(sw) => self.spec_first_conflict(expected) is None && sw == self.spec_resolved(
                    expected,
                ),
                Err(e) => self.spec_first_conflict(expected) matches Some((f, actual)) && e == (
                ConfigError::IncorrectValue { feature: f, actual, expected }),
            },
    {
        let rfc_pr_0221 = Self::check_entry(
            &self.rfc_pr_0221,
            HardForkFeature::RfcPr0221,
            expected,
        )?;
        let rfc_pr_0222 = Self::check_entry(
            &self.rfc_pr_0222,
            HardForkFeature::RfcPr0222,
            expected,
        )?;
        let rfc_pr_0223 = Self::check_entry(
            &self.rfc_pr_0223,
            HardForkFeature::RfcPr0223,
            expected,
        )?;
        let rfc_pr_0230 = Self::check_entry(
            &self.rfc_pr_0230,
            HardForkFeature::RfcPr0230,
            expected,
        )?;
        Ok(HardForkSwitch { rfc_pr_0221, rfc_pr_0222, rfc_pr_0223, rfc_pr_0230 })
    }

    /// Resolves against mainnet's canonical defaults: succeeds, with the
    /// canonical switch, exactly when every explicit entry equals the
    /// canonical epoch; otherwise fails naming the first conflicting
    /// feature.
    pub fn complete_mainnet(&self) -> (r: Result<HardForkSwitch, ConfigError>)
        ensures
            match r {
                Ok(sw) => self.spec_first_conflict(MAINNET_CKB2021_START_EPOCH) is None && sw
                    == self.spec_resolved(MAINNET_CKB2021_START_EPOCH),
                Err(e) => self.spec_first_conflict(MAINNET_CKB2021_START_EPOCH) matches Some(
                    (f, actual),
                ) && e == (ConfigError::IncorrectValue {
                    feature: f,
                    actual,
                    expected: MAINNET_CKB2021_START_EPOCH,
                }),
            },
    {
        self.complete_against_canonical(mainnet_ckb2021_start_epoch())
    }

    /// Resolves against testnet's canonical defaults, as
    /// [`Self::complete_mainnet`] does for mainnet.
    pub fn complete_testnet(&self) -> (r: Result<HardForkSwitch, ConfigError>)
        ensures
            match r {
                Ok(sw) => self.spec_first_conflict(TESTNET_CKB2021_START_EPOCH) is None && sw
                    == self.spec_resolved(TESTNET_CKB2021_START_EPOCH),
                Err(e) => self.spec_first_conflict(TESTNET_CKB2021_START_EPOCH) matches Some(
                    (f, actual),
                ) && e == (ConfigError::IncorrectValue {
                    feature: f,
                    actual,
                    expected: TESTNET_CKB2021_START_EPOCH,
                }),
            },
    {
        self.complete_against_canonical(testnet_ckb2021_start_epoch())
    }

    /// Resolves against a named network's canonical defaults.
    pub fn complete_for_network(&self, network: Network) -> (r: Result<HardForkSwitch, ConfigError>)
        ensures
            match r {
                Ok(sw) => self.spec_first_conflict(network.spec_canonical_epoch()) is None && sw
                    == self.spec_resolved(network.spec_canonical_epoch()),
                Err(e) => self.spec_first_conflict(network.spec_canonical_epoch()) matches Some(
                    (f, actual),
                ) && e == (ConfigError::IncorrectValue {
                    feature: f,
                    actual,
                    expected: network.spec_canonical_epoch(),
                }),
            },
    {
        match network {
            Network::Mainnet => self.complete_mainnet(),
            Network::Testnet => self.complete_testnet(),
        }
    }

    /// Resolves for a dev or otherwise unnamed network: explicit entries are
    /// accepted unconditionally and every unspecified entry activates at
    /// `fallback`. Never fails.
    pub fn complete_with_default(&self, fallback: u64) -> (r: Result<HardForkSwitch, ConfigError>)
        ensures
            r matches Ok(sw) && sw == self.spec_resolved(fallback),
    {
        Ok(
            HardForkSwitch {
                rfc_pr_0221: self.rfc_pr_0221.unwrap_or(fallback),
                rfc_pr_0222: self.rfc_pr_0222.unwrap_or(fallback),
                rfc_pr_0223: self.rfc_pr_0223.unwrap_or(fallback),
                rfc_pr_0230: self.rfc_pr_0230.unwrap_or(fallback),
            },
        )
    }
}

/// Feature activation is monotonic: once a feature is active at some epoch,
/// it is active at every later epoch.
pub proof fn lemma_is_active_monotonic(
    sw: HardForkSwitch,
    feature: HardForkFeature,
    earlier: u64,
    later: u64,
)
    requires
        earlier <= later,
        sw.spec_is_active(feature, earlier),
    ensures
        sw.spec_is_active(feature, later),
{
}

/// Any successful resolution is total: every feature of the closed set has a
/// concrete activation epoch, namely the explicit entry where the
/// configuration has one and the fallback elsewhere.
pub proof fn lemma_resolution_total(cfg: HardForkConfig, fallback: u64, feature: HardForkFeature)
    ensures
        cfg.spec_resolved(fallback).spec_epoch_of(feature) == cfg.spec_entry(feature).unwrap_or(
            fallback,
        ),
{
}

} // verus!
