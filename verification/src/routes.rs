//! The decisions behind the web pages: reading the account type of a
//! signup form, the times of a new reservation, and the hour-by-hour view
//! of a lot's reservations on a day.

use vstd::prelude::*;
use crate::clock::{hour_of, parse_minute, parsed_minute, representable, spec_hour_of};
use crate::db::{first_row, rows_of, runs, Query, Reply, Row, Step, Value};
use crate::lot::{
    all_lot_rows, list_done, list_params, list_ready, list_sql, lot_of, lot_reply, lots_of, Lot, Reservation,
};
use crate::user::{User, UserType};
use crate::vehicle::{all_vehicle_rows, vehicles_of, Vehicle};

verus! {

/// The account type that a signup form names: "parker" or "owner".
pub fn account_type(atype: &String) -> (t: Option<UserType>)
    ensures
        t == (if atype@ == "parker"@ {
            Some(UserType::Parker)
        } else if atype@ == "owner"@ {
            Some(UserType::Owner)
        } else {
            None
        }),
{
    if *atype == String::from_str("parker") {
        Some(UserType::Parker)
    } else if *atype == String::from_str("owner") {
        Some(UserType::Owner)
    } else {
        None
    }
}

/// The start and end of a reservation of `hours` hours from `start`.
pub fn reservation_window(start: i64, hours: i32) -> (w: (i64, i64))
    requires
        representable(start + hours * 3600),
    ensures
        w == (start, (start + hours * 3600) as i64),
{
    (start, start + hours as i64 * 3600)
}

/// What the reservation form's start time and length come to.
#[derive(Debug, PartialEq)]
pub enum ReservationTimes {
    /// The start time is not of the form `YYYY-MM-DDTHH:MM`.
    InvalidDate,
    /// The reservation would end where no date can be represented.
    OutOfRange,
    /// The reservation's start and end.
    Window(i64, i64),
}

/// Reads the start time `YYYY-MM-DDTHH:MM` (taken as UTC) of the
/// reservation form and adds its length in hours.
pub fn reservation_times(start_time: &String, hours: i32) -> (r: ReservationTimes)
    ensures
        r == (match parsed_minute(start_time@) {
            None => ReservationTimes::InvalidDate,
            Some(start) => if representable(start + hours * 3600) {
                ReservationTimes::Window(start, (start + hours * 3600) as i64)
            } else {
                ReservationTimes::OutOfRange
            },
        }),
{
    match parse_minute(start_time) {
        None => ReservationTimes::InvalidDate,
        Some(start) => {
            let end: i128 = start as i128 + hours as i128 * 3600;
            if end < crate::clock::MIN_TIMESTAMP as i128 || end > crate::clock::MAX_TIMESTAMP as i128 {
                ReservationTimes::OutOfRange
            } else {
                let (s, e) = reservation_window(start, hours);
                ReservationTimes::Window(s, e)
            }
        },
    }
}

/// The character of a decimal digit.
pub open spec fn digit_char(d: int) -> char {
    (d + 48) as char
}

/// The hour on a twelve-hour clock that the row of hour `hour` (0 to 23) is
/// labelled with: one past it.
pub open spec fn twelve_hour(hour: int) -> int {
    if hour < 12 {
        hour + 1
    } else {
        hour + 1 - 12
    }
}

/// The label of the row of hour `hour`, such as "01:00 AM".
pub open spec fn hour_label_text(hour: int) -> Seq<char> {
    seq![digit_char(twelve_hour(hour) / 10), digit_char(twelve_hour(hour) % 10)] + ":00 "@ + (if hour < 12 {
        "AM"@
    } else {
        "PM"@
    })
}

/// The row of hour `hour` (0 to 23) is labelled with the hour one past it
/// on a twelve-hour clock, in two digits, then ":00 ", then "AM" for the
/// first twelve rows and "PM" for the others.
pub proof fn law_hour_label_reads_the_next_hour(hour: int)
    requires
        0 <= hour < 24,
    ensures
        hour_label_text(hour).len() == 8,
        hour_label_text(hour)[0] as int - 48 == (hour % 12 + 1) / 10,
        hour_label_text(hour)[1] as int - 48 == (hour % 12 + 1) % 10,
        hour_label_text(hour).subrange(2, 6) == ":00 "@,
        hour_label_text(hour).subrange(6, 8) == (if hour < 12 {
            "AM"@
        } else {
            "PM"@
        }),
{
    reveal_strlit(":00 ");
    reveal_strlit("AM");
    reveal_strlit("PM");
    let t = twelve_hour(hour);
    assert(t == hour % 12 + 1);
    let l = hour_label_text(hour);
    assert(l.subrange(2, 6) =~= ":00 "@);
    if hour < 12 {
        assert(l.subrange(6, 8) =~= "AM"@);
    } else {
        assert(l.subrange(6, 8) =~= "PM"@);
    }
}

fn digit_text(d: u32) -> (s: &'static str)
    requires
        d < 10,
    ensures
        s@ == seq![digit_char(d as int)],
{
    match d {
        0 => {
            proof {
                reveal_strlit("0");
            }
            "0"
        },
        1 => {
            proof {
                reveal_strlit("1");
            }
            "1"
        },
        2 => {
            proof {
                reveal_strlit("2");
            }
            "2"
        },
        3 => {
            proof {
                reveal_strlit("3");
            }
            "3"
        },
        4 => {
            proof {
                reveal_strlit("4");
            }
            "4"
        },
        5 => {
            proof {
                reveal_strlit("5");
            }
            "5"
        },
        6 => {
            proof {
                reveal_strlit("6");
            }
            "6"
        },
        7 => {
            proof {
                reveal_strlit("7");
            }
            "7"
        },
        8 => {
            proof {
                reveal_strlit("8");
            }
            "8"
        },
        _ => {
            proof {
                reveal_strlit("9");
            }
            "9"
        },
    }
}

/// The label of the row of hour `hour` (0 to 23) in a lot's day view.
pub fn hour_label(hour: u32) -> (s: String)
    requires
        hour < 24,
    ensures
        s@ == hour_label_text(hour as int),
{
    let h12: u32 = if hour < 12 {
        hour + 1
    } else {
        hour + 1 - 12
    };
    let mut s = String::from_str(digit_text(h12 / 10));
    s.append(digit_text(h12 % 10));
    s.append(":00 ");
    if hour < 12 {
        s.append("AM");
    } else {
        s.append("PM");
    }
    s
}

/// The start and end of each reservation.
pub open spec fn spans_of(rs: Seq<Reservation>) -> Seq<(i64, i64)> {
    rs.map_values(|r: Reservation| (r.start_time, r.end_time))
}

/// The start and end of the reservation in each row.
pub open spec fn row_spans(rows: Seq<Row>) -> Seq<(i64, i64)> {
    rows.map_values(|row: Row| (row.time_at("start_time"@).unwrap(), row.time_at("end_time"@).unwrap()))
}

/// The reservation is counted in the row of hour `hour`: the rows of the
/// day view are one hour off the hours of the day, so a reservation is
/// counted from one before its starting hour to one before its ending hour.
pub open spec fn covers(span: (i64, i64), hour: int) -> bool {
    spec_hour_of(span.0 as int) - 1 <= hour && spec_hour_of(span.1 as int) - 1 >= hour
}

/// The number of reservations counted in the row of hour `hour`.
pub open spec fn hour_count(spans: Seq<(i64, i64)>, hour: int) -> int
    decreases spans.len(),
{
    if spans.len() == 0 {
        0
    } else {
        hour_count(spans.drop_last(), hour) + if covers(spans.last(), hour) {
            1int
        } else {
            0int
        }
    }
}

/// Every reservation is counted on its own: adding a reservation to the
/// list adds one to the count of each hour whose row it is counted in (from
/// one before its starting hour to one before its ending hour) and leaves
/// the other hours as they were, whatever reservations came before it; and
/// no reservations count nothing.
pub proof fn law_hour_count_counts_each_reservation(spans: Seq<(i64, i64)>, x: (i64, i64), hour: int)
    ensures
        hour_count(Seq::<(i64, i64)>::empty(), hour) == 0,
        hour_count(spans.push(x), hour) == hour_count(spans, hour) + if spec_hour_of(x.0 as int) - 1 <= hour
            && hour <= spec_hour_of(x.1 as int) - 1 {
            1int
        } else {
            0int
        },
{
    assert(spans.push(x).drop_last() =~= spans);
}

/// The count of an hour is the number of reservations counted in it: two
/// reservations with the same span are both counted.
pub proof fn law_hour_count_of_repeated_span(x: (i64, i64), hour: int)
    requires
        spec_hour_of(x.0 as int) - 1 <= hour <= spec_hour_of(x.1 as int) - 1,
    ensures
        hour_count(seq![x, x], hour) == 2,
{
    law_hour_count_counts_each_reservation(Seq::empty(), x, hour);
    law_hour_count_counts_each_reservation(seq![x], x, hour);
    assert(Seq::<(i64, i64)>::empty().push(x) =~= seq![x]);
    assert(seq![x].push(x) =~= seq![x, x]);
}

/// The start and end of each reservation, one pair per reservation and in
/// order.
pub proof fn law_spans_of_each_reservation(rs: Seq<Reservation>)
    ensures
        spans_of(rs).len() == rs.len(),
        forall|i: int| 0 <= i < rs.len() ==> #[trigger] spans_of(rs)[i] == (rs[i].start_time, rs[i].end_time),
{
}

/// The counts of the rows of the hours before `hours`, added up.
pub open spec fn count_through(spans: Seq<(i64, i64)>, hours: int) -> int
    decreases hours,
{
    if hours <= 0 {
        0
    } else {
        count_through(spans, hours - 1) + hour_count(spans, hours - 1)
    }
}

/// The incomes of the rows of the hours before `hours`, added up.
pub open spec fn income_through(spans: Seq<(i64, i64)>, price: int, hours: int) -> int
    decreases hours,
{
    if hours <= 0 {
        0
    } else {
        income_through(spans, price, hours - 1) + hour_count(spans, hours - 1) * price
    }
}

/// No reservation starts or ends in the first hour of a day (UTC).
pub open spec fn clear_of_midnight(spans: Seq<(i64, i64)>) -> bool {
    forall|i: int| 0 <= i < spans.len() ==> spec_hour_of(#[trigger] spans[i].0 as int) >= 1 && spec_hour_of(spans[i].1 as int) >= 1
}

/// The day's counts and incomes fit in an `i32`.
pub open spec fn view_fits(spans: Seq<(i64, i64)>, price: i32) -> bool {
    &&& count_through(spans, 24) <= i32::MAX
    &&& i32::MIN <= count_through(spans, 24) * price <= i32::MAX
}

proof fn lemma_hour_count_bounds(spans: Seq<(i64, i64)>, hour: int)
    ensures
        0 <= hour_count(spans, hour) <= spans.len(),
    decreases spans.len(),
{
    if spans.len() > 0 {
        lemma_hour_count_bounds(spans.drop_last(), hour);
    }
}

proof fn lemma_count_through_grows(spans: Seq<(i64, i64)>, a: int, b: int)
    requires
        0 <= a <= b,
    ensures
        0 <= count_through(spans, a) <= count_through(spans, b),
    decreases b,
{
    if b > a {
        lemma_count_through_grows(spans, a, b - 1);
        lemma_hour_count_bounds(spans, b - 1);
    } else if a > 0 {
        lemma_count_through_grows(spans, 0, a - 1);
        lemma_hour_count_bounds(spans, a - 1);
    }
}

/// One row of a lot's day view.
#[derive(Debug, PartialEq)]
pub struct HourStatus {
    /// How many reservations are counted in the row.
    pub count: i32,
    pub income: i32,
    pub fmt: String,
}

/// The row of hour `hour` holds the count and income of that hour.
pub open spec fn hour_status_of(s: HourStatus, spans: Seq<(i64, i64)>, price: i32, hour: int) -> bool {
    &&& s.count == hour_count(spans, hour)
    &&& s.income == hour_count(spans, hour) * price
    &&& s.fmt@ == hour_label_text(hour)
}

/// The 24 rows and the income of the day.
pub open spec fn day_view_of(hours: Seq<HourStatus>, income: i32, spans: Seq<(i64, i64)>, price: i32) -> bool {
    &&& hours.len() == 24
    &&& forall|h: int| 0 <= h < 24 ==> hour_status_of(#[trigger] hours[h], spans, price, h)
    &&& income == count_through(spans, 24) * price
}

/// The start and end of each reservation.
pub fn reservation_spans(resvs: &Vec<Reservation>) -> (sp: Vec<(i64, i64)>)
    ensures
        sp@ == spans_of(resvs@),
{
    let mut sp: Vec<(i64, i64)> = Vec::new();
    let mut j: usize = 0;
    while j < resvs.len()
        invariant
            j <= resvs@.len(),
            sp@ == spans_of(resvs@.take(j as int)),
        decreases resvs@.len() - j,
    {
        sp.push((resvs[j].start_time, resvs[j].end_time));
        assert(resvs@.take(j + 1) =~= resvs@.take(j as int).push(resvs@[j as int]));
        j = j + 1;
    }
    assert(resvs@.take(j as int) =~= resvs@);
    sp
}

/// How many of the reservations are counted in the row of hour `hour`.
fn count_hour(spans: &Vec<(i64, i64)>, hour: u32) -> (c: usize)
    requires
        hour < 24,
        clear_of_midnight(spans@),
    ensures
        c == hour_count(spans@, hour as int),
{
    let ghost sp = spans@;
    let mut c: usize = 0;
    let mut j: usize = 0;
    while j < spans.len()
        invariant
            j <= sp.len(),
            sp == spans@,
            clear_of_midnight(sp),
            c == hour_count(sp.take(j as int), hour as int),
            c <= j,
        decreases sp.len() - j,
    {
        let (start, end) = spans[j];
        let sh = hour_of(start);
        let eh = hour_of(end);
        assert(spec_hour_of(sp[j as int].0 as int) >= 1 && spec_hour_of(sp[j as int].1 as int) >= 1);
        assert(sp.take(j + 1).drop_last() =~= sp.take(j as int));
        assert(sp.take(j + 1).last() == sp[j as int]);
        if sh - 1 <= hour && eh - 1 >= hour {
            c = c + 1;
        }
        j = j + 1;
    }
    assert(sp.take(j as int) =~= sp);
    c
}

/// Whether the day view can be drawn for these reservations and this
/// price: no reservation starts or ends in the first hour of the day, and
/// the counts and incomes fit in an `i32`.
pub fn day_view_fits(spans: &Vec<(i64, i64)>, price: i32) -> (r: bool)
    ensures
        r == (clear_of_midnight(spans@) && view_fits(spans@, price)),
{
    let ghost sp = spans@;
    let mut j: usize = 0;
    while j < spans.len()
        invariant
            j <= sp.len(),
            sp == spans@,
            forall|i: int| 0 <= i < j ==> spec_hour_of(#[trigger] sp[i].0 as int) >= 1 && spec_hour_of(sp[i].1 as int) >= 1,
        decreases sp.len() - j,
    {
        let (start, end) = spans[j];
        if hour_of(start) < 1 || hour_of(end) < 1 {
            assert(!clear_of_midnight(sp)) by {
                assert(sp[j as int] == (start, end));
            }
            return false;
        }
        j = j + 1;
    }
    let mut total: u128 = 0;
    let mut hour: u32 = 0;
    while hour < 24
        invariant
            hour <= 24,
            sp == spans@,
            clear_of_midnight(sp),
            sp.len() <= usize::MAX,
            total == count_through(sp, hour as int),
            total <= hour * sp.len(),
        decreases 24 - hour,
    {
        let c = count_hour(spans, hour);
        proof {
            lemma_hour_count_bounds(sp, hour as int);
            assert((hour + 1) * sp.len() == hour * sp.len() + sp.len()) by (nonlinear_arith);
            assert(hour * sp.len() <= 24 * 0x1_0000_0000_0000_0000) by (nonlinear_arith)
                requires
                    hour <= 24,
                    sp.len() <= 0x1_0000_0000_0000_0000,
            ;
        }
        total = total + c as u128;
        hour = hour + 1;
    }
    if total > i32::MAX as u128 {
        return false;
    }
    let t: i128 = total as i128;
    let p: i128 = price as i128;
    assert(-0x1_0000_0000_0000_0000int <= t * p <= 0x1_0000_0000_0000_0000int) by (nonlinear_arith)
        requires
            0 <= t <= 0x8000_0000int,
            -0x8000_0000int <= p <= 0x8000_0000int,
    ;
    let product: i128 = t * p;
    i32::MIN as i128 <= product && product <= i32::MAX as i128
}

/// The hour-by-hour view of the reservations of a lot with this hourly
/// price: for each hour of the day how many reservations are counted in it
/// and what they bring in, and what the whole day brings in.
pub fn lot_hours(resvs: &Vec<Reservation>, price: i32) -> (view: (Vec<HourStatus>, i32))
    requires
        clear_of_midnight(spans_of(resvs@)),
        view_fits(spans_of(resvs@), price),
    ensures
        day_view_of(view.0@, view.1, spans_of(resvs@), price),
{
    let spans = reservation_spans(resvs);
    let ghost sp = spans@;
    let mut hours: Vec<HourStatus> = Vec::new();
    let mut total: i32 = 0;
    let mut hour: u32 = 0;
    while hour < 24
        invariant
            hour <= 24,
            sp == spans@,
            sp == spans_of(resvs@),
            clear_of_midnight(sp),
            view_fits(sp, price),
            total == count_through(sp, hour as int),
            hours@.len() == hour,
            forall|h: int| 0 <= h < hour ==> hour_status_of(#[trigger] hours@[h], sp, price, h),
        decreases 24 - hour,
    {
        let c = count_hour(&spans, hour);
        proof {
            lemma_count_through_grows(sp, hour as int + 1, 24);
            lemma_count_through_grows(sp, hour as int, hour as int + 1);
            lemma_hour_count_bounds(sp, hour as int);
            assert(count_through(sp, hour as int + 1) == count_through(sp, hour as int) + hour_count(sp, hour as int));
        }
        let c32: i32 = c as i32;
        let ghost t: int = count_through(sp, 24);
        assert(i32::MIN <= c32 * price <= i32::MAX) by (nonlinear_arith)
            requires
                0 <= c32 <= t,
                i32::MIN <= t * price <= i32::MAX,
        ;
        hours.push(HourStatus { count: c32, income: c32 * price, fmt: hour_label(hour) });
        total = total + c32;
        hour = hour + 1;
    }
    (hours, total * price)
}

/// A lot's income for a day is what its hours bring in, added up.
pub proof fn law_day_income_is_sum_of_hours(spans: Seq<(i64, i64)>, price: int, hours: int)
    ensures
        income_through(spans, price, hours) == count_through(spans, hours) * price,
    decreases hours,
{
    if hours > 0 {
        law_day_income_is_sum_of_hours(spans, price, hours - 1);
        let a = count_through(spans, hours - 1);
        let b = hour_count(spans, hours - 1);
        assert((a + b) * price == a * price + b * price) by (nonlinear_arith);
    }
}

/// A lot's reservations that start or end on a date; the date is the
/// second parameter, read as text and taken as a date by the database.
pub const DAY_RESERVATIONS: &'static str = "select * from reservations where lot_id = $1 and (
            DATE(start_time) = $2::text::date or DATE(end_time) = $2::text::date)";

/// A lot's reservations on a day, hour by hour.
#[derive(Debug, PartialEq)]
pub struct LotView {
    pub id: i32,
    /// How many reservations at each hour.
    pub hours: Vec<HourStatus>,
    pub date: String,
    pub lot: Lot,
    pub income: i32,
}

/// The replies for the day view of a lot bring back what they are read for:
/// the lot first; then the reservations, whose vehicles and lots follow,
/// two replies to a reservation.
pub open spec fn day_view_ready(rs: Seq<Reply>) -> bool {
    &&& rs.len() > 0 ==> lot_reply(rs[0])
    &&& rs.len() > 1 ==> rs[1] is Ok && list_ready(rows_of(rs[1]), rs, 2)
    &&& rs.len() > 1 ==> clear_of_midnight(row_spans(rows_of(rs[1])))
    &&& rs.len() > 1 ==> view_fits(row_spans(rows_of(rs[1])), lot_of(first_row(rs[0])).price)
}

proof fn lemma_spans_of_list(v: Seq<Reservation>, rows: Seq<Row>, rs: Seq<Reply>, base: int)
    requires
        list_done(v, rows, rs, base),
    ensures
        spans_of(v) == row_spans(rows),
{
    assert forall|i: int| 0 <= i < v.len() implies #[trigger] spans_of(v)[i] == row_spans(rows)[i] by {
        assert(crate::lot::reservation_from(v[i], rows[i], rs[base + 2 * i], rs[base + 2 * i + 1]));
    }
    assert(spans_of(v) =~= row_spans(rows));
}

/// The view of lot `id` on `date`: the lot is looked up, then its
/// reservations that start or end on that date, then the vehicle and lot
/// of each of them; the hours are then counted.
pub fn get_view_lot(id: i32, date: &String, replies: &[Reply]) -> (step: Step<LotView>)
    requires
        day_view_ready(replies@),
    ensures
        replies@.len() == 0 ==> runs(step, crate::lot::LOT_BY_ID@, seq![Value::Int(id)]),
        replies@.len() == 1 ==> runs(step, DAY_RESERVATIONS@, seq![Value::Int(id), Value::Text(*date)]),
        replies@.len() > 1 ==> {
            let rows = rows_of(replies@[1]);
            let lot = lot_of(first_row(replies@[0]));
            if replies@.len() - 2 < 2 * rows.len() {
                runs(step, list_sql(rows, replies@, 2), list_params(rows, replies@, 2))
            } else {
                &&& step matches Step::Done(view)
                &&& view.id == id
                &&& view.date == *date
                &&& view.lot == lot
                &&& day_view_of(view.hours@, view.income, row_spans(rows), lot.price)
            }
        },
{
    if replies.len() == 0 {
        return match Lot::for_id(id, replies) {
            Step::Run(q) => Step::Run(q),
            Step::Done(_) => {
                proof {
                    assert(false);
                }
                Step::Run(Query::new(crate::lot::LOT_BY_ID, Vec::new()))
            },
        };
    }
    if replies.len() == 1 {
        let params = vec![Value::Int(id), Value::Text(date.clone())];
        return Step::Run(Query::new(DAY_RESERVATIONS, params));
    }
    let lot = match &replies[0] {
        Ok(rows) => Lot::parse(&rows[0]),
        Err(_) => {
            proof {
                assert(false);
            }
            return Step::Run(Query::new(crate::lot::LOT_BY_ID, Vec::new()));
        },
    };
    let rows = match &replies[1] {
        Ok(rows) => rows,
        Err(_) => {
            proof {
                assert(false);
            }
            return Step::Run(Query::new(crate::lot::LOT_BY_ID, Vec::new()));
        },
    };
    match Reservation::parse_list(rows, replies, 2) {
        Step::Run(q) => Step::Run(q),
        Step::Done(resvs) => {
            proof {
                lemma_spans_of_list(resvs@, rows@, replies@, 2);
            }
            let (hours, income) = lot_hours(&resvs, lot.price);
            Step::Done(LotView { id, hours, date: date.clone(), lot, income })
        },
    }
}

/// What the home page of a signed-in user shows.
#[derive(Debug, PartialEq)]
pub struct Homepage {
    pub uid: i32,
    pub email: String,
    pub owner: bool,
    pub vehicles: Vec<Vehicle>,
    pub lots: Vec<Lot>,
    pub reservations: Vec<Reservation>,
    pub all_lots: Vec<Lot>,
}

/// The replies for the home page bring back what they are read for: the
/// user's vehicles, the user's lots, every lot, then the user's
/// reservations with their vehicles and lots.
pub open spec fn homepage_ready(rs: Seq<Reply>) -> bool {
    &&& rs.len() > 0 ==> all_vehicle_rows(rows_of(rs[0]))
    &&& rs.len() > 1 ==> all_lot_rows(rows_of(rs[1]))
    &&& rs.len() > 2 ==> rs[2] is Ok && all_lot_rows(rows_of(rs[2]))
    &&& rs.len() > 3 ==> rs[3] is Ok && list_ready(rows_of(rs[3]), rs.subrange(3, rs.len() as int), 1)
}

/// The replies from `from` on, but not past `to`.
fn part(replies: &[Reply], from: usize, to: usize) -> (p: &[Reply])
    requires
        from <= to,
    ensures
        from <= replies@.len() ==> p@ == replies@.subrange(from as int, if to <= replies@.len() {
            to as int
        } else {
            replies@.len() as int
        }),
        from > replies@.len() ==> p@.len() == 0,
{
    let n = replies.len();
    let a = if from <= n {
        from
    } else {
        n
    };
    let b = if to <= n {
        to
    } else {
        n
    };
    &replies[a..b]
}

/// The home page of a signed-in user: their vehicles, their lots, every
/// lot and their reservations, read in that order.
pub fn render_homepage(user: &User, replies: &[Reply]) -> (step: Step<Homepage>)
    requires
        homepage_ready(replies@),
    ensures
        replies@.len() == 0 ==> runs(step, crate::vehicle::VEHICLES_OF_DRIVER@, seq![Value::Int(user.user_id)]),
        replies@.len() == 1 ==> runs(step, crate::lot::LOTS_OF_OWNER@, seq![Value::Int(user.user_id)]),
        replies@.len() == 2 ==> runs(step, crate::lot::ALL_LOTS@, Seq::<Value>::empty()),
        replies@.len() == 3 ==> runs(
            step,
            if user.acct_type == UserType::Owner {
                crate::lot::RESERVATIONS_OF_OWNER@
            } else {
                crate::lot::RESERVATIONS_OF_PARKER@
            },
            seq![Value::Int(user.user_id)],
        ),
        replies@.len() > 3 ==> {
            let rs = replies@.subrange(3, replies@.len() as int);
            let rows = rows_of(rs[0]);
            if rs.len() - 1 < 2 * rows.len() {
                runs(step, list_sql(rows, rs, 1), list_params(rows, rs, 1))
            } else {
                &&& step matches Step::Done(h)
                &&& h.uid == user.user_id
                &&& h.email == user.email
                &&& h.owner == (user.acct_type == UserType::Owner)
                &&& h.vehicles@ == vehicles_of(rows_of(replies@[0]))
                &&& h.lots@ == lots_of(rows_of(replies@[1]))
                &&& h.all_lots@ == lots_of(rows_of(replies@[2]))
                &&& list_done(h.reservations@, rows, rs, 1)
            }
        },
{
    let vehicles = match Vehicle::for_user(user, part(replies, 0, 1)) {
        Step::Run(q) => return Step::Run(q),
        Step::Done(v) => v,
    };
    let lots = match Lot::for_user(user, part(replies, 1, 2)) {
        Step::Run(q) => return Step::Run(q),
        Step::Done(v) => v,
    };
    let all_lots = match Lot::all_lots(part(replies, 2, 3)) {
        Step::Run(q) => return Step::Run(q),
        Step::Done(v) => v,
    };
    let rest = part(replies, 3, replies.len());
    let reservations = match Reservation::for_user(user, rest) {
        Step::Run(q) => return Step::Run(q),
        Step::Done(v) => v,
    };
    Step::Done(Homepage {
        uid: user.user_id,
        email: user.email.clone(),
        owner: match user.acct_type {
            UserType::Owner => true,
            _ => false,
        },
        vehicles,
        lots,
        reservations,
        all_lots,
    })
}

} // verus!
