//! Consensus rules for epoch-gated hard-fork activation and for the 64-bit
//! "since" time-lock attached to transaction inputs.
//!
//! The crate has four parts, leaf first:
//! - [`epoch`]: positions within the chain as fractions of an epoch, with
//!   exact rational ordering and well-formedness checking;
//! - [`hardfork`]: resolution of a partial, user-supplied per-feature epoch
//!   map into a total, immutable activation switch;
//! - [`since`]: the lossless codec for the 64-bit since descriptor;
//! - [`maturity`]: the decision function that classifies a since condition at
//!   a chain position as mature, immature, or invalid, under either the
//!   legacy or the strict regime selected by the switch;
//! - [`scenarios`]: descriptors for chains that exercise the since rules
//!   across the activation boundary, with their expected verdicts.

pub mod epoch;
pub mod hardfork;
pub mod maturity;
pub mod scenarios;
pub mod since;
