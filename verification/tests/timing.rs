use asus_numpad::brightness::Brightness;
use asus_numpad::event::{
    Event, EventKind, ABS_MT_POSITION_X, ABS_MT_POSITION_Y, BTN_TOOL_FINGER, EV_ABS, EV_KEY,
    EV_MSC, MSC_TIMESTAMP,
};
use asus_numpad::numpad::{held_for, hold_duration, HOLD_DURATION_USEC};
use asus_numpad::time::{TimeVal, USEC_PER_SEC};

fn tv(tv_sec: i64, tv_usec: i64) -> TimeVal {
    TimeVal { tv_sec, tv_usec }
}

#[test]
fn elapsed_borrows_a_second() {
    let a = tv(10, 900_000);
    let b = tv(11, 100_000);
    assert_eq!(b.elapsed_since(a), tv(0, 200_000));
}

#[test]
fn elapsed_without_borrow() {
    assert_eq!(tv(12, 700_000).elapsed_since(tv(10, 200_000)), tv(2, 500_000));
}

#[test]
fn elapsed_of_equal_times_is_zero() {
    assert_eq!(tv(42, 123_456).elapsed_since(tv(42, 123_456)), tv(0, 0));
}

#[test]
fn elapsed_across_many_seconds_with_borrow() {
    assert_eq!(tv(100, 0).elapsed_since(tv(0, 1)), tv(99, 999_999));
}

#[test]
fn elapsed_is_the_exact_difference_in_microseconds() {
    let pairs = [
        (tv(0, 0), tv(0, 0)),
        (tv(0, 0), tv(0, 999_999)),
        (tv(3, 999_999), tv(4, 0)),
        (tv(7, 250_000), tv(9, 250_000)),
        (tv(1, 500_000), tv(1_000_000, 499_999)),
    ];
    for (a, b) in pairs {
        let e = b.elapsed_since(a);
        assert!(e.is_valid());
        let micros = |t: TimeVal| t.tv_sec * USEC_PER_SEC + t.tv_usec;
        assert_eq!(micros(e), micros(b) - micros(a));
    }
}

#[test]
fn timeval_new_accepts_well_formed_values_only() {
    assert_eq!(TimeVal::new(3, 999_999), Some(tv(3, 999_999)));
    assert_eq!(TimeVal::new(0, 0), Some(tv(0, 0)));
    assert_eq!(TimeVal::new(3, 1_000_000), None);
    assert_eq!(TimeVal::new(3, -1), None);
    assert_eq!(TimeVal::new(-1, 0), None);
    assert!(!tv(0, 1_000_000).is_valid());
}

#[test]
fn ge_orders_by_seconds_then_microseconds() {
    assert!(tv(2, 0).ge(&tv(1, 999_999)));
    assert!(tv(2, 5).ge(&tv(2, 5)));
    assert!(tv(2, 6).ge(&tv(2, 5)));
    assert!(!tv(2, 4).ge(&tv(2, 5)));
    assert!(!tv(1, 999_999).ge(&tv(2, 0)));
}

#[test]
fn usual_hold_duration_is_three_quarters_of_a_second() {
    assert_eq!(HOLD_DURATION_USEC, 750_000);
    assert_eq!(hold_duration(), tv(0, 750_000));
}

#[test]
fn held_for_compares_the_elapsed_time_with_the_hold() {
    let hold = tv(0, 750_000);
    let start = tv(10, 900_000);
    assert!(!held_for(&tv(11, 400_000), &start, &hold));
    assert!(!held_for(&tv(11, 649_999), &start, &hold));
    assert!(held_for(&tv(11, 650_000), &start, &hold));
    assert!(held_for(&tv(11, 660_000), &start, &hold));
    assert!(held_for(&tv(20, 0), &start, &hold));
}

#[test]
fn held_for_is_false_before_the_start() {
    let hold = tv(0, 0);
    assert!(!held_for(&tv(9, 0), &tv(10, 0), &hold));
    assert!(held_for(&tv(10, 0), &tv(10, 0), &hold));
}

#[test]
fn brightness_codes() {
    assert_eq!(Brightness::Zero.code(), 0);
    assert_eq!(Brightness::Low.code(), 31);
    assert_eq!(Brightness::Half.code(), 24);
    assert_eq!(Brightness::Full.code(), 1);
}

#[test]
fn raw_samples_are_classified() {
    assert_eq!(
        EventKind::from_raw(EV_ABS, ABS_MT_POSITION_X, 417),
        EventKind::PositionX(417)
    );
    assert_eq!(
        EventKind::from_raw(EV_ABS, ABS_MT_POSITION_Y, -3),
        EventKind::PositionY(-3)
    );
    assert_eq!(EventKind::from_raw(EV_KEY, BTN_TOOL_FINGER, 1), EventKind::ContactBegin);
    assert_eq!(EventKind::from_raw(EV_KEY, BTN_TOOL_FINGER, 0), EventKind::ContactEnd);
    assert_eq!(EventKind::from_raw(EV_MSC, MSC_TIMESTAMP, 123_456), EventKind::Tick);
    assert_eq!(EventKind::from_raw(3, 53, 9), EventKind::PositionX(9));
    assert_eq!(EventKind::from_raw(1, 325, 1), EventKind::ContactBegin);
    assert_eq!(EventKind::from_raw(4, 5, 0), EventKind::Tick);
}

#[test]
fn unknown_raw_samples_are_other() {
    assert_eq!(EventKind::from_raw(EV_KEY, BTN_TOOL_FINGER, 2), EventKind::Other);
    assert_eq!(EventKind::from_raw(EV_KEY, BTN_TOOL_FINGER, -1), EventKind::Other);
    assert_eq!(EventKind::from_raw(EV_KEY, 330, 1), EventKind::Other);
    assert_eq!(EventKind::from_raw(EV_ABS, 0, 10), EventKind::Other);
    assert_eq!(EventKind::from_raw(EV_ABS, 1, 10), EventKind::Other);
    assert_eq!(EventKind::from_raw(EV_MSC, 4, 10), EventKind::Other);
    assert_eq!(EventKind::from_raw(0, 0, 0), EventKind::Other);
    assert_eq!(EventKind::from_raw(EV_KEY, ABS_MT_POSITION_X, 1), EventKind::Other);
    let ev = Event { time: tv(1, 2), kind: EventKind::from_raw(2, 0, 5) };
    assert_eq!(ev.kind, EventKind::Other);
}

#[test]
fn elapsed_between_times_before_the_epoch() {
    assert_eq!(tv(-5, 100_000).elapsed_since(tv(-7, 900_000)), tv(1, 200_000));
    assert_eq!(tv(2, 0).elapsed_since(tv(-3, 500_000)), tv(4, 500_000));
}
