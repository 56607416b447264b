use rvkernel::sbi::SbiCall;
use rvkernel::timer::{clock_set_next_event, super_timer, Ticks, TIMEBASE};

#[test]
fn next_event_is_timebase_later() {
    assert_eq!(TIMEBASE, 10_000_000);
    assert_eq!(clock_set_next_event(100), SbiCall { which: 0, arg0: 10_000_100, arg1: 0, arg2: 0 });
    assert_eq!(clock_set_next_event(0).arg0, 10_000_000);
}

#[test]
fn ticks_report_every_hundred() {
    let mut t = Ticks::init();
    assert_eq!(t.get(), 0);
    for i in 1..100 {
        assert!(!t.tick());
        assert_eq!(t.get(), i);
    }
    assert!(t.tick());
    assert_eq!(t.get(), 0);
}

#[test]
fn ticks_closed_form() {
    let mut t = Ticks::init();
    let mut reports = 0;
    for _ in 0..250 {
        if t.tick() {
            reports += 1;
        }
    }
    assert_eq!(reports, 2);
    assert_eq!(t.get(), 50);
}

#[test]
fn super_timer_programs_and_counts() {
    let mut t = Ticks::init();
    let ev = super_timer(&mut t, 5);
    assert_eq!(ev.next.arg0, 10_000_005);
    assert!(!ev.report);
    assert_eq!(t.get(), 1);
}
