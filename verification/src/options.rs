//! What a caller may configure, and the defaults for what it leaves out.

use vstd::prelude::*;
use crate::binary64::Binary64;

verus! {

/// The bits of 0.8, the threshold when none is given.
pub const DEFAULT_THRESHOLD_BITS: u64 = 0x3FE9_9999_9999_999A;

/// The bits of 1.0, the scale when none is given.
pub const DEFAULT_SCALE_BITS: u64 = 0x3FF0_0000_0000_0000;

/// Configuration of one match.
#[derive(Clone, Copy, Debug, PartialEq, Eq)]
pub struct MatchOptions {
    /// The least score that is reported as a match.
    pub threshold: Option<Binary64>,
    /// The factor by which the needle's width and height are multiplied
    /// before matching.
    pub scale: Option<Binary64>,
}

/// The threshold that applies: the one given, else 0.8.
pub open spec fn spec_threshold_of(options: Option<MatchOptions>) -> Binary64 {
    match options {
        Some(MatchOptions { threshold: Some(t), .. }) => t,
        _ => Binary64 { bits: 0x3FE9_9999_9999_999A },
    }
}

/// The scale that applies: the one given, else 1.0.
pub open spec fn spec_scale_of(options: Option<MatchOptions>) -> Binary64 {
    match options {
        Some(MatchOptions { scale: Some(s), .. }) => s,
        _ => Binary64 { bits: 0x3FF0_0000_0000_0000 },
    }
}

/// The threshold that applies under `options`.
#[verifier::when_used_as_spec(spec_threshold_of)]
pub fn threshold_of(options: Option<MatchOptions>) -> (threshold: Binary64)
    ensures
        threshold == spec_threshold_of(options),
{
    match options {
        Some(MatchOptions { threshold: Some(t), .. }) => t,
        _ => Binary64 { bits: DEFAULT_THRESHOLD_BITS },
    }
}

/// The scale that applies under `options`.
#[verifier::when_used_as_spec(spec_scale_of)]
pub fn scale_of(options: Option<MatchOptions>) -> (scale: Binary64)
    ensures
        scale == spec_scale_of(options),
{
    match options {
        Some(MatchOptions { scale: Some(s), .. }) => s,
        _ => Binary64 { bits: DEFAULT_SCALE_BITS },
    }
}

} // verus!
