//! What a match reports.

use vstd::prelude::*;
use crate::binary64::Binary64;

verus! {

/// The maximum of a correlation surface: the cell that holds it and its
/// value.
#[derive(Clone, Copy, Debug, PartialEq, Eq, Structural)]
pub struct Peak {
    pub x: i32,
    pub y: i32,
    pub score: Binary64,
}

/// The report of one match.
#[derive(Clone, Copy, Debug, PartialEq, Eq)]
pub struct MatchResult {
    /// Whether the best score reached the threshold.
    pub found: bool,
    /// The left edge of the best placement in the haystack, if found.
    pub x: Option<i32>,
    /// The top edge of the best placement in the haystack, if found.
    pub y: Option<i32>,
    /// The best score, found or not.
    pub confidence: Binary64,
}

impl MatchResult {
    /// The coordinates are present exactly when a match was found.
    pub open spec fn well_formed(self) -> bool {
        &&& self.found == self.x.is_some()
        &&& self.found == self.y.is_some()
    }

    /// Whether the coordinates are present exactly when a match was found.
    pub fn is_well_formed(&self) -> (holds: bool)
        ensures
            holds == self.well_formed(),
    {
        self.found == self.x.is_some() && self.found == self.y.is_some()
    }

    /// The report for a peak under a threshold: found when the peak's score
    /// is at least the threshold, with the peak's cell only if found, and
    /// with the peak's score in either case.
    pub open spec fn spec_from_peak(peak: Peak, threshold: Binary64) -> MatchResult {
        if peak.score.spec_at_least(threshold) {
            (MatchResult {
                found: true,
                x: Some(peak.x),
                y: Some(peak.y),
                confidence: peak.score,
            })
        } else {
            (MatchResult { found: false, x: None, y: None, confidence: peak.score })
        }
    }

    /// The report for `peak` under `threshold`.
    pub fn from_peak(peak: Peak, threshold: Binary64) -> (report: MatchResult)
        ensures
            report == Self::spec_from_peak(peak, threshold),
            report.well_formed(),
            report.found == peak.score.spec_at_least(threshold),
            report.confidence == peak.score,
    {
        let found: bool = peak.score.at_least(threshold);
        MatchResult {
            found,
            x: if found { Some(peak.x) } else { None },
            y: if found { Some(peak.y) } else { None },
            confidence: peak.score,
        }
    }
}

/// A peak that is reported under one threshold is reported under every
/// threshold that is not higher.
pub proof fn lemma_lower_threshold_still_finds(peak: Peak, high: Binary64, low: Binary64)
    requires
        MatchResult::spec_from_peak(peak, high).found,
        high.spec_at_least(low),
    ensures
        MatchResult::spec_from_peak(peak, low).found,
        MatchResult::spec_from_peak(peak, low) == MatchResult::spec_from_peak(peak, high),
{
}

/// The confidence is the peak's score whatever the threshold, so it lies
/// between -1 and 1 whenever the peak's score does.
pub proof fn lemma_confidence_is_peak_score(peak: Peak, threshold: Binary64)
    ensures
        MatchResult::spec_from_peak(peak, threshold).confidence == peak.score,
        peak.score.spec_within_unit() ==> MatchResult::spec_from_peak(
            peak,
            threshold,
        ).confidence.spec_within_unit(),
{
}

} // verus!
