use proc_keeper::event::Event;
use proc_keeper::event::EventKind;
use proc_keeper::event::Timestamp;
use proc_keeper::render::format_event_line;
use proc_keeper::render::format_timestamp;

fn ts(year: i32, month: u32, day: u32, hour: u32, minute: u32, second: u32) -> Timestamp {
    Timestamp { year, month, day, hour, minute, second }
}

#[test]
fn timestamp_is_zero_padded() {
    assert_eq!(format_timestamp(&ts(2024, 1, 2, 3, 4, 5)), "2024-01-02 03:04:05");
    assert_eq!(format_timestamp(&ts(99, 11, 30, 23, 59, 59)), "0099-11-30 23:59:59");
    assert_eq!(format_timestamp(&ts(0, 10, 10, 0, 0, 0)), "0000-10-10 00:00:00");
    assert_eq!(format_timestamp(&ts(12345, 12, 31, 12, 30, 7)), "12345-12-31 12:30:07");
}

#[test]
fn negative_years_carry_a_sign() {
    assert_eq!(format_timestamp(&ts(-44, 3, 15, 12, 0, 1)), "-0044-03-15 12:00:01");
    assert_eq!(format_timestamp(&ts(-262143, 1, 1, 0, 0, 0)), "-262143-01-01 00:00:00");
}

#[test]
fn started_line_has_the_documented_shape() {
    let line = format_event_line(&ts(2024, 1, 2, 3, 4, 5), EventKind::Started, "web", 42);
    assert_eq!(line, "[2024-01-02 03:04:05] Started (web (42)): Process started");
}

#[test]
fn ok_stop_line_has_the_documented_shape() {
    let line = format_event_line(&ts(2023, 12, 31, 23, 59, 59), EventKind::OkStopped, "db", 7);
    assert_eq!(
        line,
        "[2023-12-31 23:59:59] Stopped-Ok (db (7)): Process stopped with no errors"
    );
}

#[test]
fn err_stop_line_has_the_documented_shape() {
    let line = format_event_line(&ts(2020, 6, 7, 8, 9, 10), EventKind::ErrStopped, "cache", 4100);
    assert_eq!(
        line,
        "[2020-06-07 08:09:10] Stopped-Err (cache (4100)): Process stopped with errors"
    );
}

#[test]
fn restarted_line_has_the_documented_shape() {
    let line = format_event_line(&ts(2021, 2, 3, 4, 5, 6), EventKind::Restarted, "worker", 0);
    assert_eq!(line, "[2021-02-03 04:05:06] Restarted (worker (0)): Process restarted");
}

#[test]
fn large_pids_render_in_full() {
    let line = format_event_line(&ts(2022, 5, 6, 7, 8, 9), EventKind::Started, "p", 4294967295);
    assert_eq!(line, "[2022-05-06 07:08:09] Started (p (4294967295)): Process started");
}

#[test]
fn event_render_matches_free_formatting() {
    let stamp = ts(2024, 10, 9, 1, 2, 3);
    let event = Event::at(stamp, EventKind::OkStopped, "svc".to_string(), 512);
    assert_eq!(event.render(), format_event_line(&stamp, EventKind::OkStopped, "svc", 512));
}

#[test]
fn labels_and_descriptions_are_fixed() {
    assert_eq!(EventKind::Started.label(), "Started");
    assert_eq!(EventKind::OkStopped.label(), "Stopped-Ok");
    assert_eq!(EventKind::ErrStopped.label(), "Stopped-Err");
    assert_eq!(EventKind::Restarted.label(), "Restarted");
    assert_eq!(EventKind::Started.description(), "Process started");
    assert_eq!(EventKind::OkStopped.description(), "Process stopped with no errors");
    assert_eq!(EventKind::ErrStopped.description(), "Process stopped with errors");
    assert_eq!(EventKind::Restarted.description(), "Process restarted");
}

#[test]
fn now_events_carry_well_formed_fields() {
    let event = Event::now(EventKind::Started, "svc".to_string(), 9);
    assert_eq!(event.kind, EventKind::Started);
    assert_eq!(event.name, "svc");
    assert_eq!(event.pid, 9);
    assert!((1..=12).contains(&event.timestamp.month));
    assert!((1..=31).contains(&event.timestamp.day));
    assert!(event.timestamp.hour <= 23);
    assert!(event.timestamp.minute <= 59);
    assert!(event.timestamp.second <= 59);
}
