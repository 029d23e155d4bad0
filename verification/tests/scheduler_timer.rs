use radio_core::scheduler::{ConfigError, Scheduler, TaskStatus};
use radio_core::timer::{deadline_after, is_reached, TimerDriver};

#[test]
fn spawning_over_capacity_is_a_config_error() {
    // The device registers exactly two tasks: radio-run and the state
    // machine. A third would be a startup misconfiguration.
    let mut s = Scheduler::new(2);
    assert_eq!(s.spawn(), Ok(0));
    assert_eq!(s.spawn(), Ok(1));
    assert_eq!(s.spawn(), Err(ConfigError::CapacityExceeded));
    assert_eq!(s.task_count(), 2);
}

#[test]
fn alarm_is_reprogrammed_to_the_minimum_deadline() {
    let mut s = Scheduler::new(3);
    s.spawn().unwrap();
    s.spawn().unwrap();
    s.spawn().unwrap();
    s.suspend_on_timer(0, 500);
    s.suspend_on_event(1);
    s.suspend_on_timer(2, 120);
    assert_eq!(s.min_deadline(), Some(120));

    let mut t = TimerDriver::new();
    s.reprogram_alarm(&mut t);
    assert_eq!(t.armed_deadline(), Some(120));
}

#[test]
fn no_timer_suspension_means_no_alarm() {
    let mut s = Scheduler::new(2);
    s.spawn().unwrap();
    s.spawn().unwrap();
    s.suspend_on_event(0);
    assert_eq!(s.min_deadline(), None);

    let mut t = TimerDriver::new();
    t.arm(99);
    s.reprogram_alarm(&mut t);
    assert_eq!(t.armed_deadline(), None);
}

#[test]
fn interrupt_wakes_exactly_the_due_tasks() {
    let mut s = Scheduler::new(3);
    s.spawn().unwrap();
    s.spawn().unwrap();
    s.spawn().unwrap();
    s.suspend_on_timer(0, 10);
    s.suspend_on_timer(1, 20);
    s.suspend_on_event(2);
    s.wake_due(15);
    assert_eq!(s.status(0), TaskStatus::Runnable);
    assert_eq!(s.status(1), TaskStatus::TimerWait(20));
    assert_eq!(s.status(2), TaskStatus::EventWait);
}

#[test]
fn alarm_service_wakes_due_tasks_and_reprograms() {
    let mut s = Scheduler::new(2);
    s.spawn().unwrap();
    s.spawn().unwrap();
    s.suspend_on_timer(0, 10);
    s.suspend_on_timer(1, 30);
    let mut t = TimerDriver::new();
    s.reprogram_alarm(&mut t);
    assert_eq!(t.armed_deadline(), Some(10));
    t.advance(15);
    s.service_alarm(&mut t);
    assert_eq!(s.status(0), TaskStatus::Runnable);
    assert_eq!(s.status(1), TaskStatus::TimerWait(30));
    // the channel is re-armed to the deadline still outstanding
    assert_eq!(t.armed_deadline(), Some(30));
    // with no due alarm, a pass leaves the tasks alone
    s.service_alarm(&mut t);
    assert_eq!(s.status(1), TaskStatus::TimerWait(30));
}

#[test]
fn idle_when_no_task_is_runnable() {
    let mut s = Scheduler::new(2);
    s.spawn().unwrap();
    s.spawn().unwrap();
    assert!(s.any_runnable());
    s.suspend_on_event(0);
    s.suspend_on_timer(1, 40);
    assert!(!s.any_runnable()); // the processor may enter its low-power wait
    s.make_runnable(1);
    assert!(s.any_runnable());
}

#[test]
fn pass_resumes_runnable_tasks_in_registration_order() {
    let mut s = Scheduler::new(4);
    for _ in 0..4 {
        s.spawn().unwrap();
    }
    s.suspend_on_event(1);
    s.suspend_on_timer(3, 10);
    assert_eq!(s.runnable_in_order(), vec![0, 2]);
    s.make_runnable(3);
    assert_eq!(s.runnable_in_order(), vec![0, 2, 3]);
}

#[test]
fn abandoned_timer_wait_drops_its_deadline() {
    // The race resolved the other way: the task is handed back runnable
    // and the next reprogramming no longer sees its deadline.
    let mut s = Scheduler::new(1);
    s.spawn().unwrap();
    s.suspend_on_timer(0, 64000);
    assert_eq!(s.min_deadline(), Some(64000));
    s.make_runnable(0);
    assert_eq!(s.min_deadline(), None);
}

#[test]
fn counter_wraps_at_its_bit_width() {
    assert_eq!(deadline_after(u64::MAX, 5), 4);
    // Just past the wrapped deadline counts as reached...
    assert!(is_reached(4, 4));
    assert!(is_reached(10, 4));
    // ...but a deadline far ahead does not.
    assert!(!is_reached(4, 10));
}

#[test]
fn past_deadline_is_due_immediately() {
    let mut t = TimerDriver::new();
    t.advance(100);
    t.arm(50); // armed in the past
    assert!(t.alarm_due());
    assert!(t.fire_if_due());
    assert_eq!(t.armed_deadline(), None);
    assert!(!t.fire_if_due());
}

#[test]
fn arming_overwrites_and_disarming_cancels() {
    let mut t = TimerDriver::new();
    t.arm(500);
    t.arm(200);
    assert_eq!(t.armed_deadline(), Some(200));
    t.disarm();
    assert_eq!(t.armed_deadline(), None);
    assert!(!t.alarm_due());
}
