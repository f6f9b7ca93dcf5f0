use postgres_talk::events::{
    visitor_funnel, FunnelEvent, PaidUserEvent, RegisteredEvent, VisitedEvent, PAID_PLAN_ID,
};
use postgres_talk::text::{join, join_lines, join_words};
use postgres_talk::time::{
    creation_window, days_before, recent_window, Instant, TimeWindow, WindowError, MAX_SECS,
    MIN_SECS, SECS_PER_DAY,
};

fn at(secs: i64) -> Instant {
    Instant { secs, nanos: 0 }
}
use postgres_talk::videos::{cap_offset, SeedError, VideoCatalog, ViewTarget};

fn words(ws: &[&str]) -> Vec<String> {
    ws.iter().map(|w| w.to_string()).collect()
}

#[test]
fn words_are_joined_with_spaces() {
    assert_eq!(join_words(&words(&["lorem", "ipsum", "dolor"])), "lorem ipsum dolor");
    assert_eq!(join_words(&words(&["solo"])), "solo");
    assert_eq!(join_words(&words(&[])), "");
}

#[test]
fn body_words_go_on_lines() {
    assert_eq!(join_lines(&words(&["a", "b", "c"])), "a\nb\nc");
}

#[test]
fn join_with_any_separator() {
    assert_eq!(join(&words(&["x", "", "y"]), ", "), "x, , y");
}

#[test]
fn visitor_who_leaves_makes_one_event() {
    let events = visitor_funnel(9, at(100), false, true, 5, at(200), at(300));
    assert_eq!(events, vec![FunnelEvent::Visited(VisitedEvent { visitor_id: 9, event_time: at(100) })]);
}

#[test]
fn visitor_who_registers_but_does_not_pay() {
    let events = visitor_funnel(9, at(100), true, false, 5, at(200), at(300));
    assert_eq!(
        events,
        vec![
            FunnelEvent::Visited(VisitedEvent { visitor_id: 9, event_time: at(100) }),
            FunnelEvent::Registered(RegisteredEvent { visitor_id: 9, event_time: at(200), user_id: 5 }),
        ]
    );
}

#[test]
fn paying_visitor_buys_plan_two() {
    let events = visitor_funnel(u128::MAX, at(100), true, true, 5, at(200), at(300));
    assert_eq!(events.len(), 3);
    assert_eq!(
        events[2],
        FunnelEvent::Paid(PaidUserEvent {
            visitor_id: u128::MAX,
            event_time: at(300),
            user_id: 5,
            plan_id: 2
        })
    );
    assert_eq!(PAID_PLAN_ID, 2);
    let times: Vec<Instant> = events.iter().map(|e| e.event_time()).collect();
    assert_eq!(times, vec![at(100), at(200), at(300)]);
    assert!(events.iter().all(|e| e.visitor_id() == u128::MAX));
}

#[test]
fn event_tags_name_their_kind() {
    let events = visitor_funnel(1, at(0), true, true, 2, at(0), at(0));
    let tags: Vec<String> = events.iter().map(|e| e.kind_tag()).collect();
    assert_eq!(tags, vec!["VisitedEvent", "RegisteredEvent", "PaidUserEvent"]);
}

#[test]
fn days_before_moves_back_whole_days() {
    let t = Instant { secs: 1_700_000_000, nanos: 123_456_789 };
    assert_eq!(days_before(t, 1), Some(Instant { secs: 1_700_000_000 - 86_400, nanos: 123_456_789 }));
    assert_eq!(days_before(t, 0), Some(t));
    assert_eq!(days_before(t, 365), Some(Instant { secs: 1_700_000_000 - 365 * SECS_PER_DAY, nanos: 123_456_789 }));
    assert_eq!(days_before(at(MIN_SECS + SECS_PER_DAY), 1), Some(at(MIN_SECS)));
    assert_eq!(days_before(at(MIN_SECS + SECS_PER_DAY - 1), 1), None);
    assert_eq!(days_before(t, u64::MAX), None);
    assert_eq!(days_before(at(MAX_SECS + 1), 0), None);
    assert_eq!(days_before(Instant { secs: 0, nanos: 1_000_000_000 }, 0), None);
}

#[test]
fn instants_before_1677_keep_their_windows() {
    // About 1600: beyond the reach of nanosecond timestamps, within chrono's.
    let now = at(-11_676_096_000);
    assert_eq!(
        recent_window(now),
        Ok(TimeWindow { start: at(-11_676_096_000 - 365 * SECS_PER_DAY), end: now })
    );
    assert!(creation_window(now).is_ok());
}

#[test]
fn leap_seconds_move_back_too() {
    let leap = Instant { secs: 1_483_228_799, nanos: 1_500_000_000 };
    assert_eq!(days_before(leap, 1), Some(Instant { secs: 1_483_228_799 - 86_400, nanos: 1_500_000_000 }));
}

#[test]
fn chrono_range_matches_the_bounds() {
    assert_eq!(chrono::DateTime::<chrono::Utc>::MIN_UTC.timestamp(), MIN_SECS);
    assert_eq!(chrono::DateTime::<chrono::Utc>::MAX_UTC.timestamp(), MAX_SECS);
}

#[test]
fn recent_window_is_the_last_year() {
    let now = Instant { secs: 1_700_000_000, nanos: 5 };
    assert_eq!(
        recent_window(now),
        Ok(TimeWindow { start: Instant { secs: 1_700_000_000 - 365 * SECS_PER_DAY, nanos: 5 }, end: now })
    );
    assert_eq!(recent_window(at(MIN_SECS)), Err(WindowError::SpanFailed));
}

#[test]
fn creation_window_ends_a_month_ago() {
    let now = at(1_700_000_000);
    let end = at(1_700_000_000 - 30 * SECS_PER_DAY);
    assert_eq!(
        creation_window(now),
        Ok(TimeWindow { start: at(end.secs - 365 * SECS_PER_DAY), end })
    );
    assert_eq!(creation_window(at(MIN_SECS)), Err(WindowError::ShiftFailed));
    assert_eq!(creation_window(at(MIN_SECS + 31 * SECS_PER_DAY)), Err(WindowError::SpanFailed));
}

#[test]
fn window_error_messages() {
    assert_eq!(WindowError::ShiftFailed.message(), "date calc");
    assert_eq!(WindowError::SpanFailed.message(), "unable to sub days");
}

fn catalog() -> VideoCatalog {
    let videos: Vec<u128> = (0..100).map(|i| 1000 + i).collect();
    let users: Vec<u128> = (0..10_000).map(|i| 50_000 + i).collect();
    VideoCatalog::new(videos, users)
}

#[test]
fn offsets_are_capped() {
    assert_eq!(cap_offset(150, 99), 99);
    assert_eq!(cap_offset(99, 99), 99);
    assert_eq!(cap_offset(0, 99), 0);
}

#[test]
fn creators_are_picked_past_the_offset() {
    let c = catalog();
    assert_eq!(c.creator(0), Ok(50_300));
    assert_eq!(c.creator(9_699), Ok(59_999));
    assert_eq!(c.creator(9_700), Err(SeedError::UnknownUser));
    assert_eq!(c.video(99), Ok(1099));
    assert_eq!(c.video(100), Err(SeedError::UnknownVideo));
}

#[test]
fn a_view_needs_a_recorded_creation_time() {
    let mut c = catalog();
    assert_eq!(c.view_target(5, 7), Err(SeedError::UnknownCreationTime));
    c.record_created(1005, at(42));
    assert_eq!(c.created_at(1005), Some(at(42)));
    assert_eq!(c.created_at(1006), None);
    assert_eq!(
        c.view_target(5, 7),
        Ok(ViewTarget { video_id: 1005, viewer_id: 50_007, earliest: at(42) })
    );
    c.record_created(1005, at(43));
    assert_eq!(c.view_target(5, 7).map(|t| t.earliest), Ok(at(43)));
}

#[test]
fn view_offsets_are_capped_before_lookup() {
    let mut c = catalog();
    c.record_created(1099, at(1));
    assert_eq!(
        c.view_target(500, 20_000),
        Ok(ViewTarget { video_id: 1099, viewer_id: 59_999, earliest: at(1) })
    );
}

#[test]
fn short_lists_report_the_missing_id() {
    let mut c = VideoCatalog::new(vec![1, 2], vec![3]);
    c.record_created(2, at(9));
    assert_eq!(c.view_target(5, 0), Err(SeedError::UnknownVideo));
    assert_eq!(c.view_target(1, 1), Err(SeedError::UnknownUser));
    assert_eq!(c.view_target(1, 0), Ok(ViewTarget { video_id: 2, viewer_id: 3, earliest: at(9) }));
    assert_eq!(c.creator(0), Err(SeedError::UnknownUser));
}

#[test]
fn seed_error_messages() {
    assert_eq!(SeedError::UnknownUser.message(), "Boom user id ");
    assert_eq!(SeedError::UnknownVideo.message(), "Boom video id ");
    assert_eq!(SeedError::UnknownCreationTime.message(), "unable to find video");
}
