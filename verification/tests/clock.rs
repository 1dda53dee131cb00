use screenruster::clock::Moment;

#[test]
fn elapsed_counts_whole_seconds() {
    let start = Moment::from_secs(5);
    assert_eq!(start.elapsed_secs(Moment::from_millis(5_500)), 0);
    assert_eq!(start.elapsed_secs(Moment::from_millis(5_999)), 0);
    assert_eq!(start.elapsed_secs(Moment::from_millis(6_000)), 1);
    assert_eq!(start.elapsed_secs(Moment::from_millis(7_999)), 2);
    assert_eq!(start.elapsed_secs(Moment::from_secs(65)), 60);
}

#[test]
fn elapsed_is_zero_when_now_is_not_later() {
    let start = Moment::from_secs(5);
    assert_eq!(start.elapsed_secs(start), 0);
    assert_eq!(start.elapsed_secs(Moment::from_secs(4)), 0);
    assert_eq!(start.elapsed_secs(Moment::from_nanos(0)), 0);
}

#[test]
fn constructors_scale_to_nanoseconds() {
    assert_eq!(Moment::from_nanos(17).as_nanos(), 17);
    assert_eq!(Moment::from_millis(3).as_nanos(), 3_000_000);
    assert_eq!(Moment::from_secs(2).as_nanos(), 2_000_000_000);
    assert_eq!(Moment::from_secs(0), Moment::from_nanos(0));
    assert_eq!(Moment::from_millis(1_000), Moment::from_secs(1));
}

#[test]
fn constructors_stop_at_the_end_of_the_clock() {
    assert_eq!(Moment::from_secs(u64::MAX).as_nanos(), u64::MAX);
    assert_eq!(Moment::from_millis(u64::MAX).as_nanos(), u64::MAX);
    // The last counts that still fit.
    assert_eq!(Moment::from_secs(18_446_744_073).as_nanos(), 18_446_744_073_000_000_000);
    assert_eq!(Moment::from_secs(18_446_744_074).as_nanos(), u64::MAX);
    assert_eq!(
        Moment::from_millis(18_446_744_073_709).as_nanos(),
        18_446_744_073_709_000_000
    );
    assert_eq!(Moment::from_millis(18_446_744_073_710).as_nanos(), u64::MAX);
}

#[test]
fn later_picks_the_later_reading() {
    let early = Moment::from_secs(1);
    let late = Moment::from_secs(2);
    assert_eq!(early.later(late), late);
    assert_eq!(late.later(early), late);
    assert_eq!(late.later(late), late);
}
