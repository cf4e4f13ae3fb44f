//! Bookings of parking spots, one-time or recurring, and when two of them
//! are in conflict.

use vstd::prelude::*;

verus! {

/// Represents a single (or recurring) parking reservation.
#[derive(Debug, PartialEq)]
pub struct Booking {
    pub id: u64,
    pub spot_id: u64,
    pub vehicle_id: u64,
    /// Minutes since midnight.
    pub start_time: u16,
    pub end_time: u16,
    /// Days since 1970-01-01.
    pub start_date: u32,
    /// Days since `start_date`; 0 for one-time reservations.
    pub duration: u32,
    /// The weekdays on which a recurring booking repeats, Monday first.
    pub recurring_weekdays: [bool; 7],
}

/// The weekday of a day counted from 1970-01-01 (a Thursday): 0 is Monday,
/// 6 is Sunday.
pub open spec fn weekday(day: int) -> int {
    (day + 3) % 7
}

impl Booking {
    /// A booking with the given fields.
    pub fn new(
        id: u64,
        spot_id: u64,
        vehicle_id: u64,
        start_time: u16,
        end_time: u16,
        start_date: u32,
        duration: u32,
        recurring_weekdays: [bool; 7],
    ) -> (b: Booking)
        ensures
            b.id == id,
            b.spot_id == spot_id,
            b.vehicle_id == vehicle_id,
            b.start_time == start_time,
            b.end_time == end_time,
            b.start_date == start_date,
            b.duration == duration,
            b.recurring_weekdays == recurring_weekdays,
    {
        Booking {
            id,
            spot_id,
            vehicle_id,
            start_time,
            end_time,
            start_date,
            duration,
            recurring_weekdays,
        }
    }

    /// The last day the booking covers.
    pub open spec fn last_day(self) -> int {
        self.start_date + self.duration
    }

    /// The booking holds its time slot on `day`: a one-time booking on its
    /// start date, a recurring one on each day from its start date to its
    /// last day whose weekday it repeats on.
    pub open spec fn occupies_day(self, day: int) -> bool {
        &&& self.start_date <= day <= self.last_day()
        &&& (self.duration == 0 || self.recurring_weekdays@[weekday(day)])
    }

    /// The two time slots overlap (each is the half-open range of minutes
    /// from its start time to its end time).
    pub open spec fn overlaps_in_time(self, other: Booking) -> bool {
        self.start_time < other.end_time && other.start_time < self.end_time
    }

    /// The two bookings are for the same spot or the same vehicle.
    pub open spec fn shares_resource(self, other: Booking) -> bool {
        self.spot_id == other.spot_id || self.vehicle_id == other.vehicle_id
    }

    /// Two bookings conflict when they claim the same spot or the same
    /// vehicle, on a common day, with overlapping time slots.
    pub open spec fn spec_conflicts(self, other: Booking) -> bool {
        &&& self.shares_resource(other)
        &&& self.overlaps_in_time(other)
        &&& exists|day: int| self.occupies_day(day) && other.occupies_day(day)
    }

    fn occupies(&self, day: u64) -> (r: bool)
        requires
            day <= u32::MAX as u64 * 2 + 7,
        ensures
            r == self.occupies_day(day as int),
    {
        let last: u64 = self.start_date as u64 + self.duration as u64;
        if day < self.start_date as u64 || day > last {
            return false;
        }
        if self.duration == 0 {
            return true;
        }
        let w: usize = ((day + 3) % 7) as usize;
        self.recurring_weekdays[w]
    }

    /// Returns if two booking objects conflict in any way.
    pub fn conflicts(&self, other: &Booking) -> (r: bool)
        ensures
            r == self.spec_conflicts(*other),
    {
        let shared = self.spot_id == other.spot_id || self.vehicle_id == other.vehicle_id;
        if !shared || !(self.start_time < other.end_time && other.start_time < self.end_time) {
            return false;
        }
        let lo: u64 = if self.start_date >= other.start_date {
            self.start_date as u64
        } else {
            other.start_date as u64
        };
        let self_last: u64 = self.start_date as u64 + self.duration as u64;
        let other_last: u64 = other.start_date as u64 + other.duration as u64;
        let hi: u64 = if self_last <= other_last {
            self_last
        } else {
            other_last
        };
        if lo > hi {
            proof {
                assert forall|day: int| !(self.occupies_day(day) && other.occupies_day(day)) by {}
            }
            return false;
        }
        // The weekday pattern repeats every seven days, so the first week of
        // the common range holds a common day if any day does.
        let last: u64 = if hi - lo >= 6 {
            lo + 6
        } else {
            hi
        };
        let mut day: u64 = lo;
        while day <= last
            invariant
                lo <= day <= last + 1,
                lo <= last <= hi,
                last <= lo + 6,
                hi <= u32::MAX as u64 * 2,
                self.shares_resource(*other),
                self.overlaps_in_time(*other),
                forall|x: int| lo <= x < day ==> !(self.occupies_day(x) && other.occupies_day(x)),
            decreases last + 1 - day,
        {
            if self.occupies(day) && other.occupies(day) {
                assert(self.occupies_day(day as int) && other.occupies_day(day as int));
                return true;
            }
            day = day + 1;
        }
        proof {
            assert forall|x: int| !(self.occupies_day(x) && other.occupies_day(x)) by {
                if self.occupies_day(x) && other.occupies_day(x) {
                    let y: int = lo + (x - lo) % 7;
                    lemma_same_weekday(x, lo as int);
                    assert(self.occupies_day(y) && other.occupies_day(y));
                }
            }
        }
        false
    }
}

/// A day and the day at the same place in the week that starts at `lo`
/// fall on the same weekday.
proof fn lemma_same_weekday(x: int, lo: int)
    requires
        0 <= lo <= x,
    ensures
        0 <= (x - lo) % 7 < 7,
        (x - lo) % 7 <= x - lo,
        weekday(lo + (x - lo) % 7) == weekday(x),
{
    let k = (x - lo) / 7;
    let r = (x - lo) % 7;
    assert(x - lo == 7 * k + r && 0 <= r < 7 && k >= 0) by (nonlinear_arith)
        requires
            x - lo >= 0,
            k == (x - lo) / 7,
            r == (x - lo) % 7,
    ;
    vstd::arithmetic::div_mod::lemma_mod_multiples_vanish(k, lo + r + 3, 7);
    assert(x + 3 == 7 * k + (lo + r + 3));
}

/// Two bookings conflict exactly when they claim the same spot or the same
/// vehicle, their time slots overlap, and there is a day, anywhere in their
/// ranges, that both hold: a day from the booking's start date to its start
/// date plus its duration, on which a recurring booking repeats (its
/// weekday, Monday first from Thursday 1970-01-01, is flagged) and which is
/// the start date of a one-time booking.
pub proof fn law_conflict_is_any_common_day(a: Booking, b: Booking, day: int)
    ensures
        ({
            &&& a.spot_id == b.spot_id || a.vehicle_id == b.vehicle_id
            &&& a.start_time < b.end_time && b.start_time < a.end_time
            &&& a.start_date <= day <= a.start_date + a.duration
            &&& a.duration == 0 || a.recurring_weekdays@[(day + 3) % 7]
            &&& b.start_date <= day <= b.start_date + b.duration
            &&& b.duration == 0 || b.recurring_weekdays@[(day + 3) % 7]
        }) ==> a.spec_conflicts(b),
        a.spec_conflicts(b) ==> {
            &&& a.spot_id == b.spot_id || a.vehicle_id == b.vehicle_id
            &&& a.start_time < b.end_time && b.start_time < a.end_time
            &&& exists|d: int| #![trigger weekday(d)] {
                &&& a.start_date <= d <= a.start_date + a.duration
                &&& (a.duration == 0 || a.recurring_weekdays@[weekday(d)])
                &&& b.start_date <= d <= b.start_date + b.duration
                &&& (b.duration == 0 || b.recurring_weekdays@[weekday(d)])
            }
        },
{
    if a.occupies_day(day) && b.occupies_day(day) {
        assert(a.occupies_day(day) && b.occupies_day(day));
    }
    if a.spec_conflicts(b) {
        let d = choose|d: int| a.occupies_day(d) && b.occupies_day(d);
        assert(a.occupies_day(d) && b.occupies_day(d));
        assert(weekday(d) == (d + 3) % 7);
    }
}

/// Conflict goes both ways: `a` conflicts with `b` exactly when `b`
/// conflicts with `a`.
pub proof fn law_conflicts_symmetric(a: Booking, b: Booking)
    ensures
        a.spec_conflicts(b) == b.spec_conflicts(a),
{
    if a.spec_conflicts(b) {
        let d = choose|day: int| a.occupies_day(day) && b.occupies_day(day);
        assert(b.occupies_day(d) && a.occupies_day(d));
    }
    if b.spec_conflicts(a) {
        let d = choose|day: int| b.occupies_day(day) && a.occupies_day(day);
        assert(a.occupies_day(d) && b.occupies_day(d));
    }
}

/// A booking whose time slot is not empty conflicts with itself on its
/// start date, when it holds that date.
pub proof fn law_conflicts_with_itself(a: Booking)
    requires
        a.start_time < a.end_time,
        a.occupies_day(a.start_date as int),
    ensures
        a.spec_conflicts(a),
{
    assert(a.occupies_day(a.start_date as int) && a.occupies_day(a.start_date as int));
}

} // verus!
