use parking::booking::Booking;

// 2021-01-04 is a Monday; days are counted from 1970-01-01.
const MONDAY: u32 = 18631;
const NO_DAYS: [bool; 7] = [false; 7];

fn once(id: u64, spot: u64, vehicle: u64, start: u16, end: u16, day: u32) -> Booking {
    Booking::new(id, spot, vehicle, start, end, day, 0, NO_DAYS)
}

#[test]
fn booking_confliction() {
    // assert_eq!(2 + 3, add(2, 3));
}

#[test]
fn same_spot_same_day_overlapping_times_conflict() {
    let a = once(1, 7, 100, 9 * 60, 11 * 60, MONDAY);
    let b = once(2, 7, 200, 10 * 60, 12 * 60, MONDAY);
    assert!(a.conflicts(&b));
    assert!(b.conflicts(&a));
}

#[test]
fn touching_time_slots_do_not_conflict() {
    let a = once(1, 7, 100, 9 * 60, 10 * 60, MONDAY);
    let b = once(2, 7, 200, 10 * 60, 12 * 60, MONDAY);
    assert!(!a.conflicts(&b));
    assert!(!b.conflicts(&a));
}

#[test]
fn different_days_do_not_conflict() {
    let a = once(1, 7, 100, 9 * 60, 11 * 60, MONDAY);
    let b = once(2, 7, 100, 9 * 60, 11 * 60, MONDAY + 1);
    assert!(!a.conflicts(&b));
}

#[test]
fn different_spot_and_vehicle_do_not_conflict() {
    let a = once(1, 7, 100, 9 * 60, 11 * 60, MONDAY);
    let b = once(2, 8, 200, 9 * 60, 11 * 60, MONDAY);
    assert!(!a.conflicts(&b));
}

#[test]
fn same_vehicle_in_two_spots_conflicts() {
    let a = once(1, 7, 100, 9 * 60, 11 * 60, MONDAY);
    let b = once(2, 8, 100, 10 * 60, 11 * 60, MONDAY);
    assert!(a.conflicts(&b));
}

#[test]
fn recurring_booking_conflicts_on_its_weekday() {
    // Every Wednesday (index 2) for four weeks.
    let mut days = NO_DAYS;
    days[2] = true;
    let weekly = Booking::new(1, 7, 100, 8 * 60, 9 * 60, MONDAY, 27, days);
    // A one-time booking on the second Wednesday.
    let wednesday = once(2, 7, 200, 8 * 60 + 30, 10 * 60, MONDAY + 9);
    assert!(weekly.conflicts(&wednesday));
    // A one-time booking on the second Thursday.
    let thursday = once(3, 7, 200, 8 * 60 + 30, 10 * 60, MONDAY + 10);
    assert!(!weekly.conflicts(&thursday));
    // After the last week.
    let later = once(4, 7, 200, 8 * 60 + 30, 10 * 60, MONDAY + 30);
    assert!(!weekly.conflicts(&later));
}

#[test]
fn recurring_bookings_on_disjoint_weekdays_do_not_conflict() {
    let mut weekdays = NO_DAYS;
    for d in 0..5 {
        weekdays[d] = true;
    }
    let mut weekend = NO_DAYS;
    weekend[5] = true;
    weekend[6] = true;
    let a = Booking::new(1, 7, 100, 0, 24 * 60, MONDAY, 365, weekdays);
    let b = Booking::new(2, 7, 200, 0, 24 * 60, MONDAY, 365, weekend);
    assert!(!a.conflicts(&b));
    // A Sunday-only booking starting later still meets the weekend one.
    let mut sunday = NO_DAYS;
    sunday[6] = true;
    let c = Booking::new(3, 7, 300, 12 * 60, 13 * 60, MONDAY + 100, 50, sunday);
    assert!(b.conflicts(&c));
    assert!(!a.conflicts(&c));
}

#[test]
fn booking_conflicts_with_itself() {
    let a = once(1, 7, 100, 9 * 60, 11 * 60, MONDAY);
    assert!(a.conflicts(&a));
    let empty_slot = once(2, 7, 100, 9 * 60, 9 * 60, MONDAY);
    assert!(!empty_slot.conflicts(&empty_slot));
}
