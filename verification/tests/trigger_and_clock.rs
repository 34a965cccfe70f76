use daily_digest::clock::current_utc_date;
use daily_digest::trigger::PipelineTrigger;
use daily_digest::trigger::default_schedule;

#[test]
fn default_schedule_is_daily_at_midnight() {
    assert_eq!(default_schedule(), "0 0 * * *");
}

#[test]
fn trigger_cycles_idle_running_idle() {
    let mut trigger = PipelineTrigger::new(default_schedule());
    assert!(trigger.is_idle());
    assert_eq!(trigger.schedule(), "0 0 * * *");

    trigger.begin_run();
    assert!(!trigger.is_idle());

    trigger.finish_run();
    assert!(trigger.is_idle());
    assert_eq!(trigger.schedule(), "0 0 * * *");
}

#[test]
fn clock_hands_back_a_real_calendar_day() {
    let today = current_utc_date();
    assert!(today.year >= 1970);
    assert!((1..=12).contains(&today.month));
    assert!((1..=31).contains(&today.day));
    assert!(today.check_wf());
    assert!(!today.check_min());
    // The target day derived from it is a real day too.
    assert!(today.yesterday().check_wf());
}
