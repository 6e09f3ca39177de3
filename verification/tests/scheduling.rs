use chrono::TimeZone;
use router_reboot::sched::count_fields;
use router_reboot::sched::normalize_cron;
use router_reboot::sched::parse_schedule;
use router_reboot::sched::plan_next;
use router_reboot::sched::wait_millis;
use router_reboot::sched::FatalError;
use router_reboot::sched::ScheduleSpec;

#[test]
fn five_field_expression_parses() {
    assert!(parse_schedule("0 4 * * Mon").is_ok());
}

#[test]
fn six_field_expression_parses() {
    assert!(parse_schedule("0 0 4 * * Mon").is_ok());
}

#[test]
fn malformed_expression_is_invalid_cron() {
    let r = parse_schedule("not a cron expression");
    assert!(matches!(r, Err(FatalError::InvalidCron)));
}

#[test]
fn empty_expression_is_invalid_cron() {
    assert!(matches!(parse_schedule(""), Err(FatalError::InvalidCron)));
}

#[test]
fn normalize_prepends_seconds_to_five_fields() {
    assert_eq!(normalize_cron("0 4 * * Mon"), "0 0 4 * * Mon");
}

#[test]
fn normalize_keeps_six_fields_unchanged() {
    assert_eq!(normalize_cron("15 0 4 * * Mon"), "15 0 4 * * Mon");
}

#[test]
fn count_fields_ignores_repeated_separators() {
    assert_eq!(count_fields("  0   4 * *   Mon "), 5);
    assert_eq!(count_fields(""), 0);
    assert_eq!(count_fields("   "), 0);
    assert_eq!(count_fields("a\tb c"), 3);
}

#[test]
fn next_trigger_is_strictly_after_now() {
    let s = parse_schedule("* * * * *").unwrap();
    let now_ms = chrono::Local::now().timestamp_millis();
    let plan = plan_next(&s, now_ms).unwrap();
    assert!(plan.trigger_ms > now_ms);
    assert!(plan.wait_ms > 0);
    // the every-minute schedule fires within the next minute
    assert!(plan.wait_ms <= 60_000);
}

#[test]
fn exhausted_schedule_is_a_fatal_error() {
    // a schedule confined to a year long past has no future occurrence
    let s = parse_schedule("0 0 4 * * Mon 2000").unwrap();
    let now_ms = chrono::Local::now().timestamp_millis();
    assert!(matches!(plan_next(&s, now_ms), Err(FatalError::NoFutureOccurrence)));
}

#[test]
fn weekly_monday_four_advances_seven_days() {
    let s = parse_schedule("0 4 * * Mon").unwrap();
    // 2026-10-12 is a Monday
    let monday = chrono::Local.with_ymd_and_hms(2026, 10, 12, 4, 0, 0).unwrap();
    let next_monday = chrono::Local.with_ymd_and_hms(2026, 10, 19, 4, 0, 0).unwrap();

    // computed exactly at the trigger instant: the next trigger is a full
    // week later, not the same instant again
    let plan = plan_next(&s, monday.timestamp_millis()).unwrap();
    assert_eq!(plan.trigger_ms, next_monday.timestamp_millis());
    assert_eq!(
        plan.wait_ms,
        (next_monday.timestamp_millis() - monday.timestamp_millis()) as u64
    );

    // computed a minute before the trigger instant: the trigger fires then
    let before = chrono::Local.with_ymd_and_hms(2026, 10, 12, 3, 59, 0).unwrap();
    let plan2 = plan_next(&s, before.timestamp_millis()).unwrap();
    assert_eq!(plan2.trigger_ms, monday.timestamp_millis());
    assert_eq!(plan2.wait_ms, 60_000);
}

#[test]
fn an_instant_past_the_calendar_range_is_fatal() {
    let s = parse_schedule("* * * * *").unwrap();
    let r = plan_next(&s, router_reboot::sched::MAX_CRON_INSTANT_MS + 1);
    assert!(matches!(r, Err(FatalError::NoFutureOccurrence)));
    // just inside the bound, the calendar arithmetic still answers safely
    let r = plan_next(&s, router_reboot::sched::MAX_CRON_INSTANT_MS);
    assert!(r.is_ok() || matches!(r, Err(FatalError::NoFutureOccurrence)));
}

#[test]
fn wait_clamps_past_triggers_to_zero() {
    assert_eq!(wait_millis(10_000, 4_000), 0);
    assert_eq!(wait_millis(10_000, 10_000), 0);
    assert_eq!(wait_millis(4_000, 10_000), 6_000);
    assert_eq!(wait_millis(-5_000, 5_000), 10_000);
    assert_eq!(wait_millis(i64::MIN, i64::MAX), u64::MAX);
}

#[test]
fn schedule_spec_keeps_the_immediate_run_flag() {
    let s = ScheduleSpec::new("0 4 * * Mon", true).unwrap();
    assert!(s.run_immediately);
    let s = ScheduleSpec::new("0 4 * * Mon", false).unwrap();
    assert!(!s.run_immediately);
    assert!(matches!(
        ScheduleSpec::new("bogus", true),
        Err(FatalError::InvalidCron)
    ));
}
