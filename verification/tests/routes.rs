use parking::clock::hour_of;
use parking::db::{Column, Reply, Row, Step, Value};
use parking::lot::{
    Lot, Reservation, ALL_LOTS, LOTS_OF_OWNER, LOT_BY_ID, RESERVATIONS_OF_PARKER, RESERVED_LOT, RESERVED_VEHICLE,
};
use parking::vehicle::VEHICLES_OF_DRIVER;
use parking::routes::{
    account_type, day_view_fits, get_view_lot, hour_label, lot_hours, reservation_spans, reservation_times,
    render_homepage, reservation_window, ReservationTimes,
};
use parking::user::{User, UserType};
use parking::vehicle::Vehicle;

const DAY: i64 = 1609545600; // 2021-01-02T00:00:00Z

fn col(name: &str, value: Value) -> Column {
    Column { name: name.to_string(), value }
}

fn text(s: &str) -> Value {
    Value::Text(s.to_string())
}

fn s(x: &str) -> String {
    x.to_string()
}

fn at(hour: i64, minute: i64) -> i64 {
    DAY + hour * 3600 + minute * 60
}

fn lot(price: i32) -> Lot {
    Lot { lot_id: 4, owner_id: 2, name: s("North"), address: s("1 Main St"), price, spaces_open: 10 }
}

fn reservation(start: i64, end: i64) -> Reservation {
    Reservation {
        id: 1,
        vehicle: Vehicle { vehicle_id: 5, driver_id: 1, license_plate: s("A"), name: s("B") },
        lot: lot(5),
        start_time: start,
        end_time: end,
        human_time: s(""),
    }
}

#[test]
fn signup_form_account_types() {
    assert_eq!(account_type(&s("parker")), Some(UserType::Parker));
    assert_eq!(account_type(&s("owner")), Some(UserType::Owner));
    assert_eq!(account_type(&s("Owner")), None);
    assert_eq!(account_type(&s("")), None);
}

#[test]
fn reservation_times_from_the_form() {
    assert_eq!(reservation_times(&s("2021-01-02T14:30"), 2), ReservationTimes::Window(at(14, 30), at(16, 30)));
    assert_eq!(reservation_times(&s("2021-01-02T14:30"), 0), ReservationTimes::Window(at(14, 30), at(14, 30)));
    assert_eq!(reservation_times(&s("2021-01-02 14:30"), 2), ReservationTimes::InvalidDate);
    assert_eq!(reservation_times(&s("tomorrow"), 2), ReservationTimes::InvalidDate);
    assert_eq!(reservation_times(&s("+262142-12-31T23:00"), 2), ReservationTimes::OutOfRange);
    // The earliest moment chrono represents, and an hour before it.
    let earliest = -8334601228800;
    assert_eq!(reservation_times(&s("-262143-01-01T00:00"), 0), ReservationTimes::Window(earliest, earliest));
    assert_eq!(reservation_times(&s("-262143-01-01T00:00"), -1), ReservationTimes::OutOfRange);
    assert_eq!(reservation_window(100, 3), (100, 100 + 3 * 3600));
}

#[test]
fn hour_labels_run_from_one_am_to_twelve_pm() {
    assert_eq!(hour_label(0), "01:00 AM");
    assert_eq!(hour_label(8), "09:00 AM");
    assert_eq!(hour_label(9), "10:00 AM");
    assert_eq!(hour_label(11), "12:00 AM");
    assert_eq!(hour_label(12), "01:00 PM");
    assert_eq!(hour_label(21), "10:00 PM");
    assert_eq!(hour_label(23), "12:00 PM");
}

#[test]
fn hour_of_reads_the_utc_hour() {
    assert_eq!(hour_of(at(14, 30)), 14);
    assert_eq!(hour_of(at(0, 0)), 0);
    assert_eq!(hour_of(at(23, 59)), 23);
    assert_eq!(hour_of(-1), 23);
}

#[test]
fn lot_hours_count_each_reservation_one_hour_early() {
    // 14:30 to 16:10 counts in the rows of hours 13, 14 and 15.
    let resvs = vec![reservation(at(14, 30), at(16, 10)), reservation(at(15, 0), at(15, 45))];
    let (hours, income) = lot_hours(&resvs, 5);
    assert_eq!(hours.len(), 24);
    let counts: Vec<i32> = hours.iter().map(|h| h.count).collect();
    let mut expected = vec![0; 24];
    expected[13] = 1;
    expected[14] = 2;
    expected[15] = 1;
    assert_eq!(counts, expected);
    assert_eq!(hours[14].income, 10);
    assert_eq!(hours[14].fmt, "03:00 PM");
    assert_eq!(income, 4 * 5);
    let sum: i32 = hours.iter().map(|h| h.income).sum();
    assert_eq!(sum, income);
}

#[test]
fn lot_hours_of_an_empty_day() {
    let (hours, income) = lot_hours(&vec![], 7);
    assert!(hours.iter().all(|h| h.count == 0 && h.income == 0));
    assert_eq!(income, 0);
    assert_eq!(hours[0].fmt, "01:00 AM");
}

fn lot_row() -> Row {
    Row {
        columns: vec![
            col("lot_id", Value::Int(4)),
            col("owner_id", Value::Int(2)),
            col("name", text("North")),
            col("address", text("1 Main St")),
            col("price", Value::Int(5)),
            col("spaces_open", Value::Int(10)),
        ],
    }
}

fn vehicle_row() -> Row {
    Row {
        columns: vec![
            col("vehicle_id", Value::Int(5)),
            col("driver_id", Value::Int(1)),
            col("license_plate", text("A")),
            col("name", text("B")),
        ],
    }
}

fn reservation_row(start: i64, end: i64) -> Row {
    Row {
        columns: vec![
            col("reservation_id", Value::Int(1)),
            col("vehicle_id", Value::Int(5)),
            col("lot_id", Value::Int(4)),
            col("start_time", Value::Time(start)),
            col("end_time", Value::Time(end)),
        ],
    }
}

#[test]
fn view_lot_looks_up_the_lot_then_the_day() {
    let date = s("2021-01-02");
    let mut replies: Vec<Reply> = vec![];
    match get_view_lot(4, &date, &replies) {
        Step::Run(q) => {
            assert_eq!(q.sql, LOT_BY_ID);
            assert_eq!(q.params, vec![Value::Int(4)]);
        },
        _ => panic!("expected the lot query"),
    }
    replies.push(Ok(vec![lot_row()]));
    match get_view_lot(4, &date, &replies) {
        Step::Run(q) => {
            assert_eq!(
                q.sql,
                "select * from reservations where lot_id = $1 and (\n            DATE(start_time) = $2::text::date or DATE(end_time) = $2::text::date)"
            );
            assert_eq!(q.params, vec![Value::Int(4), text("2021-01-02")]);
        },
        _ => panic!("expected the reservations query"),
    }
    replies.push(Ok(vec![reservation_row(at(9, 0), at(11, 0))]));
    match get_view_lot(4, &date, &replies) {
        Step::Run(q) => assert_eq!(q.sql, RESERVED_VEHICLE),
        _ => panic!("expected the vehicle query"),
    }
    replies.push(Ok(vec![vehicle_row()]));
    match get_view_lot(4, &date, &replies) {
        Step::Run(q) => assert_eq!(q.sql, RESERVED_LOT),
        _ => panic!("expected the lot query"),
    }
    replies.push(Ok(vec![lot_row()]));
    match get_view_lot(4, &date, &replies) {
        Step::Done(view) => {
            assert_eq!(view.id, 4);
            assert_eq!(view.date, "2021-01-02");
            assert_eq!(view.lot, lot(5));
            let counted: Vec<usize> = (0..24).filter(|&h| view.hours[h].count == 1).collect();
            assert_eq!(counted, vec![8, 9, 10]);
            assert_eq!(view.income, 15);
        },
        _ => panic!("expected the view"),
    }
}

#[test]
fn day_view_fits_refuses_midnight_and_overflow() {
    let fine = vec![(at(14, 30), at(16, 10))];
    assert!(day_view_fits(&fine, 5));
    assert!(day_view_fits(&vec![], i32::MAX));
    // Starting in the first hour of the day.
    assert!(!day_view_fits(&vec![(at(0, 15), at(2, 0))], 5));
    // Ending in it.
    assert!(!day_view_fits(&vec![(at(22, 0), at(0, 30) + 86400)], 5));
    // Three hours counted at a price whose triple overflows.
    assert!(!day_view_fits(&fine, i32::MAX / 2));
    assert!(day_view_fits(&fine, i32::MAX / 3));
}

#[test]
fn spans_of_reservations() {
    let resvs = vec![reservation(at(1, 0), at(2, 0)), reservation(at(3, 0), at(5, 0))];
    assert_eq!(reservation_spans(&resvs), vec![(at(1, 0), at(2, 0)), (at(3, 0), at(5, 0))]);
}

#[test]
fn homepage_reads_vehicles_lots_all_lots_then_reservations() {
    let user = User { user_id: 1, email: s("p@x"), pass_hash: s("h"), acct_type: UserType::Parker };
    let mut replies: Vec<Reply> = vec![];
    let expect = |step: Step<parking::routes::Homepage>, sql: &str| match step {
        Step::Run(q) => assert_eq!(q.sql, sql),
        Step::Done(_) => panic!("expected {}", sql),
    };
    expect(render_homepage(&user, &replies), VEHICLES_OF_DRIVER);
    replies.push(Ok(vec![vehicle_row()]));
    expect(render_homepage(&user, &replies), LOTS_OF_OWNER);
    replies.push(Ok(vec![]));
    expect(render_homepage(&user, &replies), ALL_LOTS);
    replies.push(Ok(vec![lot_row(), lot_row()]));
    expect(render_homepage(&user, &replies), RESERVATIONS_OF_PARKER);
    replies.push(Ok(vec![reservation_row(at(9, 0), at(11, 0))]));
    expect(render_homepage(&user, &replies), RESERVED_VEHICLE);
    replies.push(Ok(vec![vehicle_row()]));
    expect(render_homepage(&user, &replies), RESERVED_LOT);
    replies.push(Ok(vec![lot_row()]));
    match render_homepage(&user, &replies) {
        Step::Done(h) => {
            assert_eq!(h.uid, 1);
            assert_eq!(h.email, "p@x");
            assert!(!h.owner);
            assert_eq!(h.vehicles.len(), 1);
            assert_eq!(h.lots.len(), 0);
            assert_eq!(h.all_lots, vec![lot(5), lot(5)]);
            assert_eq!(h.reservations.len(), 1);
            assert_eq!(h.reservations[0].start_time, at(9, 0));
        },
        _ => panic!("expected the page"),
    }
}
