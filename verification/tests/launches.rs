use qpipe::command::{
    launch_plan, run_process_group, wait_for, CronSchedule, GroupLaunch, NextRun,
    LATEST_SCHEDULE_MILLIS,
};
use qpipe::config::ProcessGroup;

fn group(cron: &str, stream: &str) -> ProcessGroup {
    ProcessGroup {
        name: "g".to_string(),
        cron: cron.to_string(),
        prompt: "p".to_string(),
        stream: stream.to_string(),
    }
}

#[test]
fn now_runs_once() {
    match launch_plan(&group("now", "/path/history.sh")) {
        GroupLaunch::RunOnce { command } => assert_eq!(command, "/path/history.sh"),
        other => panic!("unexpected {:?}", other),
    }
}

#[test]
fn other_schedules_run_on_cron() {
    match launch_plan(&group("0/60 * * * * *", "/path/request_doc.py")) {
        GroupLaunch::RunOnSchedule { command, expression } => {
            assert_eq!(command, "/path/request_doc.py");
            assert_eq!(expression, "0/60 * * * * *");
        }
        other => panic!("unexpected {:?}", other),
    }
    // The match is exact: other spellings are taken as cron expressions.
    assert!(matches!(launch_plan(&group("NOW", "x")), GroupLaunch::RunOnSchedule { .. }));
}

#[test]
fn every_group_is_launched_in_order() {
    let groups = vec![group("now", "a"), group("0/5 * * * * *", "b"), group("now", "c")];
    let launches = run_process_group(&groups);
    assert_eq!(launches.len(), 3);
    assert!(matches!(&launches[0], GroupLaunch::RunOnce { command } if command == "a"));
    assert!(matches!(&launches[1], GroupLaunch::RunOnSchedule { command, .. } if command == "b"));
    assert!(matches!(&launches[2], GroupLaunch::RunOnce { command } if command == "c"));
}

#[test]
fn cron_expressions_are_checked() {
    let parsed = CronSchedule::parse("0/5 * * * * *");
    assert!(parsed.is_ok());
    let refused = CronSchedule::parse("every five seconds");
    match refused {
        Err(e) => assert_eq!(e.expression, "every five seconds"),
        Ok(_) => panic!("accepted an invalid expression"),
    }
}

#[test]
fn next_run_waits_until_the_next_time() {
    // 2023-11-14 22:13:20 UTC; the next midnight is 2023-11-15 00:00:00 UTC.
    let now: i64 = 1_700_000_000_000;
    let schedule = CronSchedule::parse("0 0 0 * * *").ok().unwrap();
    assert_eq!(schedule.next_run(now), NextRun::After(6_400_000));
    let every_five = CronSchedule::parse("0/5 * * * * *").ok().unwrap();
    assert_eq!(every_five.next_run(now + 1_500), NextRun::After(3_500));
}

#[test]
fn wait_for_values() {
    assert_eq!(wait_for(Some(1_500), 1_000), NextRun::After(500));
    assert_eq!(wait_for(Some(1_000), 1_000), NextRun::After(0));
    assert_eq!(wait_for(Some(500), 1_000), NextRun::Overdue);
    assert_eq!(wait_for(None, 1_000), NextRun::Never);
    assert_eq!(wait_for(Some(i64::MAX), i64::MIN), NextRun::After(u64::MAX));
}

#[test]
fn a_scheduled_time_is_never_waited_for_twice() {
    // Exactly at a scheduled midnight, the next run is the following midnight.
    let midnight: i64 = 1_700_006_400_000;
    let schedule = CronSchedule::parse("0 0 0 * * *").ok().unwrap();
    assert_eq!(schedule.next_run(midnight), NextRun::After(86_400_000));
}

#[test]
fn no_time_after_cron_years() {
    let schedule = CronSchedule::parse("0 0 0 * * *").ok().unwrap();
    assert_eq!(schedule.next_run(LATEST_SCHEDULE_MILLIS), NextRun::Never);
    // The end of the year 9999 UTC.
    assert_eq!(schedule.next_run(253_402_300_799_999), NextRun::Never);
    // 2101-01-01T00:00:00Z lies after the last year cron knows.
    assert_eq!(schedule.next_run(4_133_980_800_000), NextRun::Never);
}
