use certwatch::clock::{current_instant, instant_from_parts};
use certwatch::hosts::{select_host_names, HostListError};
use certwatch::record::CertificateRecord;
use certwatch::scheduler::{scheduler_step, SchedulerAction, SchedulerEvent, SchedulerState};
use certwatch::timestamp::UtcInstant;

fn instant(year: u32, month: u32, day: u32, hour: u32, minute: u32, second: u32) -> UtcInstant {
    UtcInstant { year, month, day, hour, minute, second }
}

#[test]
fn scheduler_transitions() {
    assert_eq!(
        scheduler_step(SchedulerState::Idle, SchedulerEvent::TimerFired),
        (SchedulerState::Collecting, SchedulerAction::StartRound)
    );
    assert_eq!(
        scheduler_step(SchedulerState::Collecting, SchedulerEvent::RoundCompleted),
        (SchedulerState::Idle, SchedulerAction::AwaitTimer)
    );
    // a tick during a running round starts nothing: rounds never overlap
    assert_eq!(
        scheduler_step(SchedulerState::Collecting, SchedulerEvent::TimerFired),
        (SchedulerState::Collecting, SchedulerAction::AwaitTimer)
    );
    assert_eq!(
        scheduler_step(SchedulerState::Idle, SchedulerEvent::RoundCompleted),
        (SchedulerState::Idle, SchedulerAction::AwaitTimer)
    );
}

#[test]
fn select_hosts_takes_first_name_of_each_entry() {
    let entries = vec![
        vec!["a.example".to_string(), "alias.example".to_string()],
        vec!["b.example".to_string()],
    ];
    let names = select_host_names(&entries).unwrap();
    assert_eq!(names.len(), 2);
    assert_eq!(names[0], "a.example");
    assert_eq!(names[1], "b.example");
}

#[test]
fn select_hosts_rejects_entry_without_names() {
    let entries = vec![vec!["a.example".to_string()], vec![]];
    assert_eq!(select_host_names(&entries), Err(HostListError::MalformedEntry));
}

#[test]
fn select_hosts_of_empty_list() {
    let entries: Vec<Vec<String>> = vec![];
    assert_eq!(select_host_names(&entries).unwrap().len(), 0);
}

#[test]
fn instant_from_parts_validates_year_and_day() {
    assert_eq!(
        instant_from_parts(2025, 12, 19, 23, 59, 59),
        Some(instant(2025, 12, 19, 23, 59, 59))
    );
    assert_eq!(instant_from_parts(10000, 1, 1, 0, 0, 0), None);
    assert_eq!(instant_from_parts(-1, 1, 1, 0, 0, 0), None);
    assert_eq!(instant_from_parts(2025, 2, 29, 0, 0, 0), None);
    assert_eq!(
        instant_from_parts(2024, 2, 29, 0, 0, 0),
        Some(instant(2024, 2, 29, 0, 0, 0))
    );
}

#[test]
fn record_wf_check_at_run_time() {
    let good = CertificateRecord {
        name: "a.example".to_string(),
        valid_from: instant(2025, 1, 1, 0, 0, 0),
        valid_to: instant(2025, 6, 1, 0, 0, 0),
        updated: instant(2025, 3, 1, 12, 0, 0),
    };
    assert!(good.is_wf());
    let inverted = CertificateRecord {
        name: "a.example".to_string(),
        valid_from: instant(2025, 6, 1, 0, 0, 0),
        valid_to: instant(2025, 1, 1, 0, 0, 0),
        updated: instant(2025, 3, 1, 12, 0, 0),
    };
    assert!(!inverted.is_wf());
    let bad_month = CertificateRecord {
        name: "a.example".to_string(),
        valid_from: instant(2025, 13, 1, 0, 0, 0),
        valid_to: instant(2026, 1, 1, 0, 0, 0),
        updated: instant(2025, 3, 1, 12, 0, 0),
    };
    assert!(!bad_month.is_wf());
}

#[test]
fn current_instant_is_well_formed() {
    let t = current_instant().unwrap();
    assert!(1 <= t.month && t.month <= 12);
    assert!(1 <= t.day && t.day <= 31);
    assert!(t.hour <= 23);
    assert!(t.minute <= 59);
    assert!(t.second <= 59);
    assert!(t.year >= 2020);
}
