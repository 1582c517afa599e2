use template_matcher::binary64::Binary64;
use template_matcher::error::{ErrorKind, HostStatus, MatchError, Operation};
use template_matcher::outcome::Peak;
use template_matcher::template_match;
use template_matcher::{MatchOptions, MatchResult};
use template_matcher::session::{Event, Request, Session, Stage};
use template_matcher::size::ImageSize;

fn number(value: f64) -> Binary64 {
    Binary64::from_bits(value.to_bits())
}

fn size(width: i32, height: i32) -> ImageSize {
    ImageSize { width, height }
}

fn peak(x: i32, y: i32, score: f64) -> Peak {
    Peak { x, y, score: number(score) }
}

fn scaled(scale: f64) -> Option<MatchOptions> {
    Some(MatchOptions { threshold: None, scale: Some(number(scale)) })
}

fn run(options: Option<MatchOptions>, events: &[Event]) -> Request {
    let mut session = Session::start(options);
    for event in events {
        session = session.advance(*event);
    }
    session.pending()
}

#[test]
fn black_square_in_gray_image_is_found() {
    let mut session = Session::start(None);
    assert_eq!(session.pending(), Request::DecodeHaystack);
    session = session.advance(Event::Decoded(size(100, 100)));
    assert_eq!(session.pending(), Request::DecodeNeedle);
    session = session.advance(Event::Decoded(size(10, 10)));
    assert_eq!(session.pending(), Request::Resize { target: size(10, 10) });
    session = session.advance(Event::Resized(size(10, 10)));
    assert_eq!(session.pending(), Request::Correlate { surface: size(91, 91) });
    session = session.advance(Event::Located(peak(40, 40, 1.0)));
    let expected = MatchResult { found: true, x: Some(40), y: Some(40), confidence: number(1.0) };
    assert_eq!(session.pending(), Request::Done(Ok(expected)));
    assert_eq!(session.stage, Stage::Finished(Ok(expected)));
}

#[test]
fn sub_region_is_found_at_its_origin() {
    let events = [
        Event::Decoded(size(320, 240)),
        Event::Decoded(size(32, 24)),
        Event::Resized(size(32, 24)),
        Event::Located(peak(17, 203, 0.9999998807907104)),
    ];
    let expected = MatchResult {
        found: true,
        x: Some(17),
        y: Some(203),
        confidence: number(0.9999998807907104),
    };
    assert_eq!(run(None, &events), Request::Done(Ok(expected)));
}

#[test]
fn absent_needle_is_not_found_but_keeps_its_confidence() {
    let events = [
        Event::Decoded(size(100, 100)),
        Event::Decoded(size(10, 10)),
        Event::Resized(size(10, 10)),
        Event::Located(peak(3, 5, 0.31)),
    ];
    let expected = MatchResult { found: false, x: None, y: None, confidence: number(0.31) };
    assert_eq!(run(None, &events), Request::Done(Ok(expected)));
}

#[test]
fn threshold_is_inclusive() {
    let at = MatchResult::from_peak(peak(1, 2, 0.8), number(0.8));
    assert_eq!(at, MatchResult { found: true, x: Some(1), y: Some(2), confidence: number(0.8) });
    let below = MatchResult::from_peak(peak(1, 2, 0.7999999999999999), number(0.8));
    assert_eq!(
        below,
        MatchResult { found: false, x: None, y: None, confidence: number(0.7999999999999999) }
    );
}

#[test]
fn any_threshold_is_accepted() {
    let negative = MatchResult::from_peak(peak(0, 0, -0.5), number(-1.0));
    assert!(negative.found);
    let unreachable = MatchResult::from_peak(peak(0, 0, 1.0), number(1.5));
    assert!(!unreachable.found);
    assert_eq!(unreachable.confidence, number(1.0));
    let nan_threshold = MatchResult::from_peak(peak(0, 0, 1.0), number(f64::NAN));
    assert!(!nan_threshold.found);
    let nan_score = MatchResult::from_peak(peak(0, 0, f64::NAN), number(-1.0));
    assert!(!nan_score.found);
    assert_eq!(nan_score.x, None);
    assert_eq!(nan_score.y, None);
}

#[test]
fn given_threshold_replaces_the_default() {
    let events = [
        Event::Decoded(size(100, 100)),
        Event::Decoded(size(10, 10)),
        Event::Resized(size(10, 10)),
        Event::Located(peak(3, 5, 0.31)),
    ];
    let options = Some(MatchOptions { threshold: Some(number(0.3)), scale: None });
    let expected = MatchResult { found: true, x: Some(3), y: Some(5), confidence: number(0.31) };
    assert_eq!(run(options, &events), Request::Done(Ok(expected)));
}

#[test]
fn doubled_needle_that_fits_is_matched() {
    let mut session = Session::start(scaled(2.0));
    session = session.advance(Event::Decoded(size(100, 100)));
    session = session.advance(Event::Decoded(size(10, 10)));
    assert_eq!(session.pending(), Request::Resize { target: size(20, 20) });
    session = session.advance(Event::Resized(size(20, 20)));
    assert_eq!(session.pending(), Request::Correlate { surface: size(81, 81) });
    session = session.advance(Event::Located(peak(0, 0, 0.1)));
    assert!(matches!(session.pending(), Request::Done(Ok(_))));
}

#[test]
fn needle_scaled_beyond_the_haystack_is_invalid() {
    let mut session = Session::start(scaled(11.0));
    session = session.advance(Event::Decoded(size(100, 100)));
    session = session.advance(Event::Decoded(size(10, 10)));
    assert_eq!(session.pending(), Request::Resize { target: size(110, 110) });
    session = session.advance(Event::Resized(size(110, 110)));
    assert_eq!(session.pending(), Request::Done(Err(MatchError::NeedleTooLarge)));
    assert_eq!(MatchError::NeedleTooLarge.kind(), ErrorKind::InvalidArgument);
}

#[test]
fn needle_too_wide_or_too_tall_is_invalid() {
    let wide = [
        Event::Decoded(size(100, 50)),
        Event::Decoded(size(101, 10)),
        Event::Resized(size(101, 10)),
    ];
    assert_eq!(run(None, &wide), Request::Done(Err(MatchError::NeedleTooLarge)));
    let tall = [
        Event::Decoded(size(100, 50)),
        Event::Decoded(size(10, 51)),
        Event::Resized(size(10, 51)),
    ];
    assert_eq!(run(None, &tall), Request::Done(Err(MatchError::NeedleTooLarge)));
}

#[test]
fn needle_as_large_as_the_haystack_has_one_placement() {
    let events = [
        Event::Decoded(size(64, 48)),
        Event::Decoded(size(64, 48)),
        Event::Resized(size(64, 48)),
    ];
    assert_eq!(run(None, &events), Request::Correlate { surface: size(1, 1) });
    assert_eq!(size(64, 48).surface(size(64, 48)), size(1, 1));
    assert_eq!(size(100, 80).surface(size(10, 30)), size(91, 51));
    assert_eq!(size(i32::MAX, i32::MAX).surface(size(1, 1)), size(i32::MAX, i32::MAX));
}

#[test]
fn unreadable_bytes_are_a_decode_error() {
    let haystack = run(None, &[Event::Unreadable]);
    assert_eq!(haystack, Request::Done(Err(MatchError::HaystackUnreadable)));
    let needle = run(None, &[Event::Decoded(size(100, 100)), Event::Unreadable]);
    assert_eq!(needle, Request::Done(Err(MatchError::NeedleUnreadable)));
    assert_eq!(MatchError::HaystackUnreadable.kind(), ErrorKind::DecodeError);
    assert_eq!(MatchError::NeedleUnreadable.kind(), ErrorKind::DecodeError);
}

#[test]
fn empty_images_are_a_decode_error() {
    let empty_haystack = run(None, &[Event::Decoded(size(0, 0)), Event::Decoded(size(10, 10))]);
    assert_eq!(empty_haystack, Request::Done(Err(MatchError::EmptyImage)));
    let empty_needle = run(None, &[Event::Decoded(size(100, 100)), Event::Decoded(size(0, 0))]);
    assert_eq!(empty_needle, Request::Done(Err(MatchError::EmptyImage)));
    let no_rows = run(None, &[Event::Decoded(size(100, 100)), Event::Decoded(size(10, 0))]);
    assert_eq!(no_rows, Request::Done(Err(MatchError::EmptyImage)));
    assert_eq!(MatchError::EmptyImage.kind(), ErrorKind::DecodeError);
    assert!(size(0, 5).is_empty());
    assert!(size(5, 0).is_empty());
    assert!(!size(1, 1).is_empty());
}

#[test]
fn unreadable_haystack_comes_before_an_empty_needle() {
    let events = [Event::Unreadable, Event::Decoded(size(0, 0))];
    assert_eq!(run(None, &events), Request::Done(Err(MatchError::HaystackUnreadable)));
}

#[test]
fn failed_operations_are_internal_failures() {
    let decoded = [Event::Decoded(size(100, 100)), Event::Decoded(size(10, 10))];
    let mut events = decoded.to_vec();
    events.push(Event::Failed(Operation::Resize));
    assert_eq!(run(None, &events), Request::Done(Err(MatchError::Internal(Operation::Resize))));
    for operation in [Operation::SurfaceAllocation, Operation::Correlation, Operation::PeakSearch] {
        let mut events = decoded.to_vec();
        events.push(Event::Resized(size(10, 10)));
        events.push(Event::Failed(operation));
        assert_eq!(run(None, &events), Request::Done(Err(MatchError::Internal(operation))));
        assert_eq!(MatchError::Internal(operation).kind(), ErrorKind::InternalFailure);
    }
}

#[test]
fn vanishing_needle_is_a_failed_resize() {
    let mut session = Session::start(scaled(0.01));
    session = session.advance(Event::Decoded(size(100, 100)));
    session = session.advance(Event::Decoded(size(10, 10)));
    assert_eq!(session.pending(), Request::Resize { target: size(0, 0) });
    let failed = session.advance(Event::Failed(Operation::Resize));
    assert_eq!(failed.pending(), Request::Done(Err(MatchError::Internal(Operation::Resize))));
    let empty = session.advance(Event::Resized(size(0, 0)));
    assert_eq!(empty.pending(), Request::Done(Err(MatchError::Internal(Operation::Resize))));
}

#[test]
fn events_that_answer_nothing_are_ignored() {
    let start = Session::start(None);
    assert_eq!(start.advance(Event::Resized(size(1, 1))), start);
    assert_eq!(start.advance(Event::Located(peak(0, 0, 1.0))), start);
    assert_eq!(start.advance(Event::Failed(Operation::Resize)), start);
    let resizing = start.advance(Event::Decoded(size(9, 9))).advance(Event::Decoded(size(3, 3)));
    assert_eq!(resizing.advance(Event::Unreadable), resizing);
    assert_eq!(resizing.advance(Event::Decoded(size(1, 1))), resizing);
    assert_eq!(resizing.advance(Event::Failed(Operation::Correlation)), resizing);
    let searching = resizing.advance(Event::Resized(size(3, 3)));
    assert_eq!(searching.advance(Event::Failed(Operation::Resize)), searching);
    assert_eq!(searching.advance(Event::Resized(size(3, 3))), searching);
}

#[test]
fn finished_session_stays_finished() {
    let done = Session::start(None).advance(Event::Unreadable);
    for event in [
        Event::Decoded(size(5, 5)),
        Event::Unreadable,
        Event::Resized(size(5, 5)),
        Event::Located(peak(1, 1, 1.0)),
        Event::Failed(Operation::PeakSearch),
    ] {
        assert_eq!(done.advance(event), done);
    }
}

#[test]
fn same_inputs_give_the_same_outcome() {
    let events = [
        Event::Decoded(size(100, 100)),
        Event::Decoded(size(10, 10)),
        Event::Resized(size(15, 15)),
        Event::Located(peak(40, 40, 0.93)),
    ];
    let options = Some(MatchOptions { threshold: Some(number(0.9)), scale: Some(number(1.5)) });
    let first = run(options, &events);
    let second = run(options, &events);
    assert_eq!(first, second);
    let expected = MatchResult { found: true, x: Some(40), y: Some(40), confidence: number(0.93) };
    assert_eq!(first, Request::Done(Ok(expected)));
}

#[test]
fn confidence_is_the_peak_score_bit_for_bit() {
    for score in [1.0, -1.0, 0.0, -0.0, 0.8, 0.123456789, -0.987654321] {
        let report = MatchResult::from_peak(peak(2, 3, score), number(0.8));
        assert_eq!(report.confidence.bits, score.to_bits());
        assert!(report.confidence.within_unit());
        assert_eq!(report.found, score >= 0.8);
        assert_eq!(report.x.is_some(), report.found);
        assert_eq!(report.y.is_some(), report.found);
    }
}

#[test]
fn replay_takes_the_events_in_turn() {
    let events = [
        Event::Decoded(size(100, 100)),
        Event::Decoded(size(10, 10)),
        Event::Resized(size(10, 10)),
        Event::Located(peak(40, 40, 1.0)),
    ];
    let start = Session::start(None);
    assert_eq!(start.replay(&[]), start);
    assert_eq!(start.replay(&events[..2]).pending(), Request::Resize { target: size(10, 10) });
    let expected = MatchResult { found: true, x: Some(40), y: Some(40), confidence: number(1.0) };
    assert_eq!(start.replay(&events).pending(), Request::Done(Ok(expected)));
    assert_eq!(start.replay(&events).pending(), run(None, &events));
}

#[test]
fn every_failure_has_its_message() {
    assert_eq!(MatchError::HaystackUnreadable.message(), "解码大图失败");
    assert_eq!(MatchError::NeedleUnreadable.message(), "解码模板图失败");
    assert_eq!(MatchError::EmptyImage.message(), "图片数据为空");
    assert_eq!(MatchError::NeedleTooLarge.message(), "模板图尺寸大于大图，无法匹配");
    assert_eq!(MatchError::Internal(Operation::Resize).message(), "");
    assert_eq!(MatchError::Internal(Operation::SurfaceAllocation).message(), "创建结果矩阵失败");
    assert_eq!(MatchError::Internal(Operation::Correlation).message(), "模板匹配失败");
    assert_eq!(MatchError::Internal(Operation::PeakSearch).message(), "查找最值失败");
}

#[test]
fn sessions_from_start_and_advance_are_well_formed() {
    let mut session = Session::start(None);
    assert!(session.is_well_formed());
    for event in [
        Event::Decoded(size(100, 100)),
        Event::Decoded(size(10, 10)),
        Event::Resized(size(10, 10)),
        Event::Located(peak(40, 40, 1.0)),
    ] {
        session = session.advance(event);
        assert!(session.is_well_formed());
    }
    let threshold = number(0.8);
    let scale = number(1.0);
    let too_large = Stage::AwaitPeak { haystack: size(5, 5), needle: size(6, 1) };
    assert!(!Session { threshold, scale, stage: too_large }.is_well_formed());
    let empty = Stage::AwaitResize { haystack: size(5, 5), needle: size(0, 1) };
    assert!(!Session { threshold, scale, stage: empty }.is_well_formed());
    let lost = MatchResult { found: true, x: None, y: Some(1), confidence: number(1.0) };
    assert!(!lost.is_well_formed());
    assert!(!Session { threshold, scale, stage: Stage::Finished(Ok(lost)) }.is_well_formed());
}

#[test]
fn template_match_finds_the_black_square() {
    let reports = [
        Event::Decoded(size(100, 100)),
        Event::Decoded(size(10, 10)),
        Event::Resized(size(10, 10)),
        Event::Located(peak(40, 40, 1.0)),
    ];
    let expected = MatchResult { found: true, x: Some(40), y: Some(40), confidence: number(1.0) };
    assert_eq!(template_match(None, &reports), Some(Ok(expected)));
    assert_eq!(template_match(None, &reports), template_match(None, &reports));
}

#[test]
fn template_match_reports_a_miss_with_its_confidence() {
    let reports = [
        Event::Decoded(size(100, 100)),
        Event::Decoded(size(10, 10)),
        Event::Resized(size(10, 10)),
        Event::Located(peak(12, 77, 0.42)),
    ];
    let expected = MatchResult { found: false, x: None, y: None, confidence: number(0.42) };
    assert_eq!(template_match(None, &reports), Some(Ok(expected)));
}

#[test]
fn template_match_fails_on_bad_images() {
    let unreadable = [Event::Unreadable, Event::Decoded(size(10, 10))];
    assert_eq!(template_match(None, &unreadable), Some(Err(MatchError::HaystackUnreadable)));
    let needle = [Event::Decoded(size(10, 10)), Event::Unreadable, Event::Resized(size(1, 1))];
    assert_eq!(template_match(None, &needle), Some(Err(MatchError::NeedleUnreadable)));
    let empty = [Event::Decoded(size(0, 0)), Event::Decoded(size(10, 10))];
    assert_eq!(template_match(None, &empty), Some(Err(MatchError::EmptyImage)));
    let too_large = [
        Event::Decoded(size(100, 100)),
        Event::Decoded(size(10, 10)),
        Event::Resized(size(110, 110)),
    ];
    assert_eq!(template_match(scaled(11.0), &too_large), Some(Err(MatchError::NeedleTooLarge)));
}

#[test]
fn template_match_waits_for_missing_reports() {
    assert_eq!(template_match(None, &[]), None);
    assert_eq!(template_match(None, &[Event::Decoded(size(100, 100))]), None);
    let resized = [
        Event::Decoded(size(100, 100)),
        Event::Decoded(size(10, 10)),
        Event::Resized(size(10, 10)),
    ];
    assert_eq!(template_match(None, &resized), None);
}

#[test]
fn failures_are_rated_for_the_host() {
    assert_eq!(MatchError::EmptyImage.status(), HostStatus::InvalidArg);
    assert_eq!(MatchError::NeedleTooLarge.status(), HostStatus::InvalidArg);
    assert_eq!(MatchError::HaystackUnreadable.status(), HostStatus::GenericFailure);
    assert_eq!(MatchError::NeedleUnreadable.status(), HostStatus::GenericFailure);
    for operation in [
        Operation::Resize,
        Operation::SurfaceAllocation,
        Operation::Correlation,
        Operation::PeakSearch,
    ] {
        assert_eq!(MatchError::Internal(operation).status(), HostStatus::GenericFailure);
    }
}
