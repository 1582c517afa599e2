//! One match, as a conversation with the host.
//!
//! A session holds what has been decided so far. Its pending request names
//! the one piece of image work that the host has to do next; the host does
//! it and hands the outcome back as an event, and the session moves on. An
//! event that does not answer the pending request changes nothing.

use vstd::prelude::*;
use crate::binary64::Binary64;
use crate::error::{ErrorKind, MatchError, Operation};
use crate::options::{scale_of, spec_scale_of, spec_threshold_of, threshold_of, MatchOptions};
use crate::outcome::{MatchResult, Peak};
use crate::scaling::{
    lemma_double_scale_doubles_extent,
    lemma_unit_scale_keeps_extent,
    scale_size,
    spec_scale_size,
};
use crate::size::ImageSize;

verus! {

/// How far a match has come.
#[derive(Clone, Copy, Debug, PartialEq, Eq)]
pub enum Stage {
    /// Nothing is decoded yet.
    AwaitHaystack,
    /// The haystack is decoded, the needle is not.
    AwaitNeedle { haystack: ImageSize },
    /// Both images are decoded and have pixels; the needle is being resized
    /// to its size times the scale.
    AwaitResize { haystack: ImageSize, needle: ImageSize },
    /// The resized needle fits; the surface is being computed and searched.
    AwaitPeak { haystack: ImageSize, needle: ImageSize },
    /// The match has ended.
    Finished(Result<MatchResult, MatchError>),
}

/// What the host is asked to do.
#[derive(Clone, Copy, Debug, PartialEq, Eq)]
pub enum Request {
    /// Decode the haystack's bytes as a colour image.
    DecodeHaystack,
    /// Decode the needle's bytes as a colour image.
    DecodeNeedle,
    /// Resize the needle to this size, with bilinear interpolation.
    Resize { target: ImageSize },
    /// Allocate a surface of this size, fill it with the normalized
    /// correlation coefficients of the resized needle over the haystack, and
    /// find its maximum.
    Correlate { surface: ImageSize },
    /// Nothing more: hand this to the caller.
    Done(Result<MatchResult, MatchError>),
}

/// What the host reports back.
#[derive(Clone, Copy, Debug, PartialEq, Eq)]
pub enum Event {
    /// The bytes were decoded to an image of this size.
    Decoded(ImageSize),
    /// The bytes could not be decoded.
    Unreadable,
    /// The needle was resized, to this size.
    Resized(ImageSize),
    /// The surface was computed, and this is its maximum.
    Located(Peak),
    /// This operation failed.
    Failed(Operation),
}

/// The state of one match.
#[derive(Clone, Copy, Debug, PartialEq, Eq)]
pub struct Session {
    pub threshold: Binary64,
    pub scale: Binary64,
    pub stage: Stage,
}

/// The stage after both images are decoded: an image without pixels ends the
/// match, otherwise the needle is resized.
pub open spec fn spec_after_decode(haystack: ImageSize, needle: ImageSize) -> Stage {
    if haystack.spec_is_empty() || needle.spec_is_empty() {
        Stage::Finished(Err(MatchError::EmptyImage))
    } else {
        Stage::AwaitResize { haystack, needle }
    }
}

/// The stage after the needle is resized: a resized needle without pixels
/// is a failed resize, one that does not fit ends the match, otherwise the
/// surface is computed.
pub open spec fn spec_after_resize(haystack: ImageSize, resized: ImageSize) -> Stage {
    if resized.spec_is_empty() {
        Stage::Finished(Err(MatchError::Internal(Operation::Resize)))
    } else if !haystack.spec_holds(resized) {
        Stage::Finished(Err(MatchError::NeedleTooLarge))
    } else {
        Stage::AwaitPeak { haystack, needle: resized }
    }
}

/// Whether a failure of `operation` can be what the host met at `stage`.
pub open spec fn spec_can_fail(stage: Stage, operation: Operation) -> bool {
    match stage {
        Stage::AwaitResize { .. } => operation == Operation::Resize,
        Stage::AwaitPeak { .. } => operation != Operation::Resize,
        _ => false,
    }
}

/// The stage that follows `stage` on `event` under `threshold`.
pub open spec fn spec_next_stage(stage: Stage, threshold: Binary64, event: Event) -> Stage {
    match (stage, event) {
        (Stage::AwaitHaystack, Event::Decoded(haystack)) => Stage::AwaitNeedle { haystack },
        (Stage::AwaitHaystack, Event::Unreadable) => Stage::Finished(
            Err(MatchError::HaystackUnreadable),
        ),
        (Stage::AwaitNeedle { haystack }, Event::Decoded(needle)) => spec_after_decode(
            haystack,
            needle,
        ),
        (Stage::AwaitNeedle { .. }, Event::Unreadable) => Stage::Finished(
            Err(MatchError::NeedleUnreadable),
        ),
        (Stage::AwaitResize { haystack, .. }, Event::Resized(resized)) => spec_after_resize(
            haystack,
            resized,
        ),
        (Stage::AwaitPeak { .. }, Event::Located(peak)) => Stage::Finished(
            Ok(MatchResult::spec_from_peak(peak, threshold)),
        ),
        (_, Event::Failed(operation)) => if spec_can_fail(stage, operation) {
            Stage::Finished(Err(MatchError::Internal(operation)))
        } else {
            stage
        },
        _ => stage,
    }
}

impl Stage {
    /// How many events at most still come before the match ends.
    pub open spec fn remaining(self) -> nat {
        match self {
            Stage::AwaitHaystack => 4,
            Stage::AwaitNeedle { .. } => 3,
            Stage::AwaitResize { .. } => 2,
            Stage::AwaitPeak { .. } => 1,
            Stage::Finished(_) => 0,
        }
    }

    /// What holds of the sizes that a stage remembers: images that are
    /// worked on have pixels, and a needle that is correlated fits.
    pub open spec fn well_formed(self) -> bool {
        match self {
            Stage::AwaitResize { haystack, needle } => !haystack.spec_is_empty()
                && !needle.spec_is_empty(),
            Stage::AwaitPeak { haystack, needle } => !haystack.spec_is_empty()
                && !needle.spec_is_empty() && haystack.spec_holds(needle),
            Stage::Finished(Ok(report)) => report.well_formed(),
            _ => true,
        }
    }
}

impl Session {
    /// A session is well formed when its stage is.
    pub open spec fn well_formed(self) -> bool {
        self.stage.well_formed()
    }

    /// The session before anything is decoded.
    pub open spec fn spec_start(options: Option<MatchOptions>) -> Session {
        Session {
            threshold: spec_threshold_of(options),
            scale: spec_scale_of(options),
            stage: Stage::AwaitHaystack,
        }
    }

    /// What the host has to do next.
    pub open spec fn spec_pending(self) -> Request {
        match self.stage {
            Stage::AwaitHaystack => Request::DecodeHaystack,
            Stage::AwaitNeedle { .. } => Request::DecodeNeedle,
            Stage::AwaitResize { needle, .. } => Request::Resize {
                target: spec_scale_size(needle, self.scale),
            },
            Stage::AwaitPeak { haystack, needle } => Request::Correlate {
                surface: haystack.spec_surface(needle),
            },
            Stage::Finished(result) => Request::Done(result),
        }
    }

    /// The session after `event`.
    pub open spec fn spec_advance(self, event: Event) -> Session {
        Session { stage: spec_next_stage(self.stage, self.threshold, event), ..self }
    }

    /// The session after each of `events` in turn.
    pub open spec fn spec_replay(self, events: Seq<Event>) -> Session
        decreases events.len(),
    {
        if events.len() == 0 {
            self
        } else {
            self.spec_advance(events[0]).spec_replay(events.skip(1))
        }
    }

    /// Whether the session is well formed. Sessions that come from `start`
    /// and `advance` always are.
    pub fn is_well_formed(&self) -> (holds: bool)
        ensures
            holds == self.well_formed(),
    {
        match self.stage {
            Stage::AwaitResize { haystack, needle } => !haystack.is_empty() && !needle.is_empty(),
            Stage::AwaitPeak { haystack, needle } => !haystack.is_empty() && !needle.is_empty()
                && haystack.holds(needle),
            Stage::Finished(Ok(report)) => report.is_well_formed(),
            _ => true,
        }
    }

    /// Starts a match under `options`, with 0.8 for a missing threshold and
    /// 1.0 for a missing scale.
    pub fn start(options: Option<MatchOptions>) -> (session: Session)
        ensures
            session == Self::spec_start(options),
            session.well_formed(),
            session.spec_pending() == Request::DecodeHaystack,
    {
        Session {
            threshold: threshold_of(options),
            scale: scale_of(options),
            stage: Stage::AwaitHaystack,
        }
    }

    /// What the host has to do next.
    pub fn pending(&self) -> (request: Request)
        requires
            self.well_formed(),
        ensures
            request == self.spec_pending(),
    {
        match self.stage {
            Stage::AwaitHaystack => Request::DecodeHaystack,
            Stage::AwaitNeedle { .. } => Request::DecodeNeedle,
            Stage::AwaitResize { needle, .. } => Request::Resize {
                target: scale_size(needle, self.scale),
            },
            Stage::AwaitPeak { haystack, needle } => Request::Correlate {
                surface: haystack.surface(needle),
            },
            Stage::Finished(result) => Request::Done(result),
        }
    }

    /// Takes the host's report and moves on. An event that does not answer
    /// the pending request leaves the session as it is.
    pub fn advance(self, event: Event) -> (next: Session)
        requires
            self.well_formed(),
        ensures
            next == self.spec_advance(event),
            next.well_formed(),
    {
        let stage: Stage = match (self.stage, event) {
            (Stage::AwaitHaystack, Event::Decoded(haystack)) => Stage::AwaitNeedle { haystack },
            (Stage::AwaitHaystack, Event::Unreadable) => Stage::Finished(
                Err(MatchError::HaystackUnreadable),
            ),
            (Stage::AwaitNeedle { haystack }, Event::Decoded(needle)) => {
                if haystack.is_empty() || needle.is_empty() {
                    Stage::Finished(Err(MatchError::EmptyImage))
                } else {
                    Stage::AwaitResize { haystack, needle }
                }
            },
            (Stage::AwaitNeedle { .. }, Event::Unreadable) => Stage::Finished(
                Err(MatchError::NeedleUnreadable),
            ),
            (Stage::AwaitResize { haystack, .. }, Event::Resized(resized)) => {
                if resized.is_empty() {
                    Stage::Finished(Err(MatchError::Internal(Operation::Resize)))
                } else if !haystack.holds(resized) {
                    Stage::Finished(Err(MatchError::NeedleTooLarge))
                } else {
                    Stage::AwaitPeak { haystack, needle: resized }
                }
            },
            (Stage::AwaitPeak { .. }, Event::Located(peak)) => Stage::Finished(
                Ok(MatchResult::from_peak(peak, self.threshold)),
            ),
            (Stage::AwaitResize { .. }, Event::Failed(Operation::Resize)) => Stage::Finished(
                Err(MatchError::Internal(Operation::Resize)),
            ),
            (Stage::AwaitPeak { .. }, Event::Failed(Operation::SurfaceAllocation)) => {
                Stage::Finished(Err(MatchError::Internal(Operation::SurfaceAllocation)))
            },
            (Stage::AwaitPeak { .. }, Event::Failed(Operation::Correlation)) => Stage::Finished(
                Err(MatchError::Internal(Operation::Correlation)),
            ),
            (Stage::AwaitPeak { .. }, Event::Failed(Operation::PeakSearch)) => Stage::Finished(
                Err(MatchError::Internal(Operation::PeakSearch)),
            ),
            (stage, _) => stage,
        };
        Session { threshold: self.threshold, scale: self.scale, stage }
    }

    /// Takes a whole run of reports, one after the other.
    pub fn replay(self, events: &[Event]) -> (end: Session)
        requires
            self.well_formed(),
        ensures
            end == self.spec_replay(events@),
            end.well_formed(),
    {
        let mut current: Session = self;
        let mut taken: usize = 0;
        proof {
            assert(events@.skip(0) =~= events@);
        }
        while taken < events.len()
            invariant
                taken <= events.len(),
                current.well_formed(),
                current.spec_replay(events@.skip(taken as int)) == self.spec_replay(events@),
            decreases events.len() - taken,
        {
            proof {
                assert(events@.skip(taken as int).skip(1) =~= events@.skip(taken + 1));
            }
            current = current.advance(events[taken]);
            taken = taken + 1;
        }
        current
    }
}

/// The outcome of a match under `options` in which the host reported
/// `reports`, in this order: the result, if the reports bring the match to
/// its end, and nothing if the match still waits for the host.
pub open spec fn spec_template_match(options: Option<MatchOptions>, reports: Seq<Event>) -> Option<
    Result<MatchResult, MatchError>,
> {
    match Session::spec_start(options).spec_replay(reports).stage {
        Stage::Finished(result) => Some(result),
        _ => None,
    }
}

/// Decides a match from what the host reported of its images: the report
/// of the best placement, the failure that ended the match, or nothing
/// where the reports end before the match does.
pub fn template_match(options: Option<MatchOptions>, reports: &[Event]) -> (outcome: Option<
    Result<MatchResult, MatchError>,
>)
    ensures
        outcome == spec_template_match(options, reports@),
        outcome matches Some(Ok(report)) ==> report.well_formed(),
{
    let end: Session = Session::start(options).replay(reports);
    match end.stage {
        Stage::Finished(result) => Some(result),
        _ => None,
    }
}

/// A match that has ended stays as it is, whatever is reported.
pub proof fn lemma_finished_is_final(session: Session, event: Event)
    requires
        session.stage is Finished,
    ensures
        session.spec_advance(event) == session,
{
}

/// Every event either leaves the session as it is or brings it strictly
/// nearer to the end, so no match takes more than four answers.
pub proof fn lemma_advance_makes_progress(session: Session, event: Event)
    ensures
        session.spec_advance(event) == session || session.spec_advance(event).stage.remaining()
            < session.stage.remaining(),
        session.spec_advance(event).threshold == session.threshold,
        session.spec_advance(event).scale == session.scale,
{
}

/// Well-formedness is kept by every event, and so by every run of events.
pub proof fn lemma_replay_keeps_well_formed(session: Session, events: Seq<Event>)
    requires
        session.well_formed(),
    ensures
        session.spec_replay(events).well_formed(),
    decreases events.len(),
{
    if events.len() > 0 {
        lemma_replay_keeps_well_formed(session.spec_advance(events[0]), events.skip(1));
    }
}

/// Once a match has ended, no further run of events changes its result.
pub proof fn lemma_replay_after_finish(session: Session, events: Seq<Event>)
    requires
        session.stage is Finished,
    ensures
        session.spec_replay(events) == session,
    decreases events.len(),
{
    if events.len() > 0 {
        lemma_replay_after_finish(session.spec_advance(events[0]), events.skip(1));
    }
}

/// Bytes that cannot be decoded, and images without pixels, end the match
/// with a decode error: never with a report, found or not.
pub proof fn lemma_bad_image_is_decode_error(session: Session, event: Event)
    requires
        session.stage is AwaitHaystack || session.stage is AwaitNeedle,
        event is Unreadable || (session.stage matches Stage::AwaitNeedle { haystack }
            && event matches Event::Decoded(needle) && (haystack.spec_is_empty()
            || needle.spec_is_empty())),
    ensures
        session.spec_advance(event).stage matches Stage::Finished(Err(e)) && e.spec_kind()
            == ErrorKind::DecodeError,
{
}

/// A resized needle ends the match as too large exactly when it is wider or
/// taller than the haystack; one that fits is correlated, over a surface
/// with one cell for each placement.
pub proof fn lemma_needle_must_fit(session: Session, resized: ImageSize)
    requires
        session.well_formed(),
        session.stage is AwaitResize,
        !resized.spec_is_empty(),
    ensures
        ({
            let haystack = session.stage->AwaitResize_haystack;
            let next = session.spec_advance(Event::Resized(resized));
            let too_large = resized.width > haystack.width || resized.height > haystack.height;
            &&& too_large <==> next.stage == Stage::Finished(Err(MatchError::NeedleTooLarge))
            &&& too_large ==> MatchError::NeedleTooLarge.spec_kind() == ErrorKind::InvalidArgument
            &&& !too_large <==> next.spec_pending() == Request::Correlate {
                surface: haystack.spec_surface(resized),
            }
            &&& !too_large ==> !haystack.spec_surface(resized).spec_is_empty()
        }),
{
}

/// A match without failures takes four answers, and reports the peak under
/// the threshold of its options: found exactly when the peak's score is at
/// least the threshold, with the peak's score as confidence in either case.
pub proof fn lemma_full_run(
    options: Option<MatchOptions>,
    haystack: ImageSize,
    needle: ImageSize,
    resized: ImageSize,
    peak: Peak,
)
    requires
        !haystack.spec_is_empty(),
        !needle.spec_is_empty(),
        !resized.spec_is_empty(),
        haystack.spec_holds(resized),
    ensures
        ({
            let report = MatchResult::spec_from_peak(peak, spec_threshold_of(options));
            let end = Session::spec_start(options).spec_replay(
                seq![
                    Event::Decoded(haystack),
                    Event::Decoded(needle),
                    Event::Resized(resized),
                    Event::Located(peak),
                ],
            );
            &&& end.stage == Stage::Finished(Ok(report))
            &&& end.spec_pending() == Request::Done(Ok(report))
            &&& spec_template_match(
                options,
                seq![
                    Event::Decoded(haystack),
                    Event::Decoded(needle),
                    Event::Resized(resized),
                    Event::Located(peak),
                ],
            ) == Some(Ok::<MatchResult, MatchError>(report))
            &&& report.found == peak.score.spec_at_least(spec_threshold_of(options))
            &&& report.found ==> report.x == Some(peak.x) && report.y == Some(peak.y)
            &&& !report.found ==> report.x.is_none() && report.y.is_none()
            &&& report.confidence == peak.score
        }),
{
    let events = seq![
        Event::Decoded(haystack),
        Event::Decoded(needle),
        Event::Resized(resized),
        Event::Located(peak),
    ];
    let s0 = Session::spec_start(options);
    let s1 = s0.spec_advance(events[0]);
    let s2 = s1.spec_advance(events[1]);
    let s3 = s2.spec_advance(events[2]);
    let s4 = s3.spec_advance(events[3]);
    let e1 = events.skip(1);
    let e2 = e1.skip(1);
    let e3 = e2.skip(1);
    let e4 = e3.skip(1);
    assert(e1[0] == events[1] && e2[0] == events[2] && e3[0] == events[3]);
    assert(e4.len() == 0);
    assert(s4.spec_replay(e4) == s4);
    assert(s3.spec_replay(e3) == s4);
    assert(s2.spec_replay(e2) == s4);
    assert(s1.spec_replay(e1) == s4);
    assert(s0.spec_replay(events) == s4);
}

/// The outcome of a match is a function of its options and of what the host
/// reported: two runs with the same options and the same reports end alike.
pub proof fn lemma_same_inputs_same_outcome(
    options: Option<MatchOptions>,
    first: Seq<Event>,
    second: Seq<Event>,
)
    requires
        first.len() == second.len(),
        forall|i: int| 0 <= i < first.len() ==> first[i] == second[i],
    ensures
        Session::spec_start(options).spec_replay(first) == Session::spec_start(
            options,
        ).spec_replay(second),
{
    assert(first =~= second);
}

/// Without a scale the needle is matched at its own size, and with the scale
/// 2.0 at twice its size: where that still fits the haystack, the resized
/// needle is correlated and the match does not end as too large.
pub proof fn lemma_plain_and_doubled_needles(
    options: Option<MatchOptions>,
    haystack: ImageSize,
    needle: ImageSize,
)
    requires
        !haystack.spec_is_empty(),
        !needle.spec_is_empty(),
    ensures
        ({
            let decoded = Session::spec_start(options).spec_advance(
                Event::Decoded(haystack),
            ).spec_advance(Event::Decoded(needle));
            let doubled = ImageSize { width: (2 * needle.width) as i32, height: (2 * needle.height) as i32 };
            &&& spec_scale_of(options).bits == 0x3FF0_0000_0000_0000 ==> decoded.spec_pending()
                == Request::Resize { target: needle }
            &&& spec_scale_of(options).bits == 0x4000_0000_0000_0000 && 2 * needle.width
                <= haystack.width && 2 * needle.height <= haystack.height
                ==> decoded.spec_pending() == Request::Resize { target: doubled }
                && decoded.spec_advance(Event::Resized(doubled)).spec_pending()
                == Request::Correlate { surface: haystack.spec_surface(doubled) }
        }),
{
    lemma_unit_scale_keeps_extent(needle.width);
    lemma_unit_scale_keeps_extent(needle.height);
    if 2 * needle.width <= haystack.width && 2 * needle.height <= haystack.height {
        lemma_double_scale_doubles_extent(needle.width);
        lemma_double_scale_doubles_extent(needle.height);
    }
}

/// A haystack that cannot be decoded decides the match, whatever is
/// reported after it: the outcome is a decode error, never a report.
pub proof fn lemma_unreadable_haystack_decides(options: Option<MatchOptions>, later: Seq<Event>)
    ensures
        spec_template_match(options, seq![Event::Unreadable] + later) == Some(
            Err::<MatchResult, MatchError>(MatchError::HaystackUnreadable),
        ),
        MatchError::HaystackUnreadable.spec_kind() == ErrorKind::DecodeError,
{
    let reports = seq![Event::Unreadable] + later;
    let ended = Session::spec_start(options).spec_advance(Event::Unreadable);
    assert(reports[0] == Event::Unreadable);
    assert(reports.skip(1) =~= later);
    lemma_replay_after_finish(ended, later);
}

/// A needle that cannot be decoded, or an image without pixels, decides the
/// match in the same way.
pub proof fn lemma_bad_needle_decides(
    options: Option<MatchOptions>,
    haystack: ImageSize,
    needle: Event,
    later: Seq<Event>,
)
    requires
        needle is Unreadable || (needle matches Event::Decoded(size) && (haystack.spec_is_empty()
            || size.spec_is_empty())),
    ensures
        spec_template_match(options, seq![Event::Decoded(haystack), needle] + later) matches Some(
            Err(failure),
        ) && failure.spec_kind() == ErrorKind::DecodeError,
{
    let reports = seq![Event::Decoded(haystack), needle] + later;
    let first = Session::spec_start(options).spec_advance(Event::Decoded(haystack));
    let ended = first.spec_advance(needle);
    assert(reports[0] == Event::Decoded(haystack));
    assert(reports.skip(1)[0] == needle);
    assert(reports.skip(1).skip(1) =~= later);
    lemma_replay_after_finish(ended, later);
    assert(first.spec_replay(reports.skip(1)) == ended);
}

} // verus!
