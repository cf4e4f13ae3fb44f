//! Parking lots and reservations of space in them.

use vstd::prelude::*;
use crate::clock::{format_human_time, human_time_text, representable};
use crate::db::{first_row, returned_rows, rows_of, runs, DbError, Query, Reply, Row, Step, Value};
use crate::user::{User, UserType};
use crate::vehicle::{vehicle_of, vehicle_reply, vehicle_row, Vehicle};

verus! {

pub const CREATE_LOT: &'static str = "INSERT INTO lots(owner_id, name, address, price)
                              VALUES ($1, $2, $3, $4)
                              RETURNING *;";

pub const LOTS_OF_OWNER: &'static str = "SELECT * FROM lots WHERE owner_id = $1;";

pub const DELETE_LOT: &'static str = "DELETE FROM lots WHERE lot_id = $1;";

pub const ALL_LOTS: &'static str = "SELECT * FROM lots;";

pub const LOT_BY_ID: &'static str = "SELECT * FROM lots where lot_id = $1;";

pub const RESERVED_VEHICLE: &'static str = "SELECT * from vehicles where vehicle_id = $1;";

pub const RESERVED_LOT: &'static str = "SELECT * from lots where lot_id = $1;";

pub const CREATE_RESERVATION: &'static str = "INSERT INTO reservations
                              (vehicle_id, lot_id, start_time, end_time)
                              VALUES ($1, $2, $3, $4)
                              RETURNING *;";

pub const RESERVATIONS_OF_OWNER: &'static str = "SELECT * FROM lots
                            JOIN reservations on lots.lot_id = reservations.lot_id
                            where owner_id = $1;";

pub const RESERVATIONS_OF_PARKER: &'static str = "SELECT * FROM vehicles
                            JOIN reservations on vehicles.vehicle_id = reservations.vehicle_id
                            where driver_id = $1;";

#[derive(Debug, PartialEq)]
pub struct Lot {
    pub lot_id: i32,
    pub owner_id: i32,
    pub name: String,
    pub address: String,
    pub price: i32,
    pub spaces_open: i32,
}

/// The row holds a lot.
pub open spec fn lot_row(row: Row) -> bool {
    &&& row.int_at("lot_id"@) is Some
    &&& row.int_at("owner_id"@) is Some
    &&& row.text_at("name"@) is Some
    &&& row.text_at("address"@) is Some
    &&& row.int_at("price"@) is Some
    &&& row.int_at("spaces_open"@) is Some
}

/// The lot that a lot row holds.
pub open spec fn lot_of(row: Row) -> Lot {
    Lot {
        lot_id: row.int_at("lot_id"@).unwrap(),
        owner_id: row.int_at("owner_id"@).unwrap(),
        name: row.text_at("name"@).unwrap(),
        address: row.text_at("address"@).unwrap(),
        price: row.int_at("price"@).unwrap(),
        spaces_open: row.int_at("spaces_open"@).unwrap(),
    }
}

/// The reply brought back a first row, and it holds a lot.
pub open spec fn lot_reply(reply: Reply) -> bool {
    returned_rows(reply) && lot_row(first_row(reply))
}

/// Every row holds a lot.
pub open spec fn all_lot_rows(rows: Seq<Row>) -> bool {
    forall|i: int| 0 <= i < rows.len() ==> lot_row(#[trigger] rows[i])
}

/// The lots that the rows hold, in order.
pub open spec fn lots_of(rows: Seq<Row>) -> Seq<Lot> {
    rows.map_values(|r: Row| lot_of(r))
}

/// The lots listed from rows are the rows' lots, one per row and in order,
/// whatever the rows hold.
pub proof fn law_lots_of_each_row(rows: Seq<Row>)
    ensures
        lots_of(rows).len() == rows.len(),
        forall|i: int| 0 <= i < rows.len() ==> #[trigger] lots_of(rows)[i] == lot_of(rows[i]),
        forall|i: int| 0 <= i < rows.len() ==> (#[trigger] lots_of(rows)[i]).lot_id == rows[i].int_at("lot_id"@).unwrap()
            && lots_of(rows)[i].spaces_open == rows[i].int_at("spaces_open"@).unwrap(),
{
}

impl Lot {
    /// parse a lot from a database row
    pub fn parse(row: &Row) -> (l: Lot)
        requires
            lot_row(*row),
        ensures
            l == lot_of(*row),
    {
        Lot {
            lot_id: row.get_int("lot_id").unwrap(),
            owner_id: row.get_int("owner_id").unwrap(),
            name: row.get_text("name").unwrap(),
            address: row.get_text("address").unwrap(),
            price: row.get_int("price").unwrap(),
            spaces_open: row.get_int("spaces_open").unwrap(),
        }
    }

    /// Parses every row, in order.
    pub fn parse_all(rows: &Vec<Row>) -> (ls: Vec<Lot>)
        requires
            all_lot_rows(rows@),
        ensures
            ls@ == lots_of(rows@),
    {
        let mut ls: Vec<Lot> = Vec::new();
        let mut i: usize = 0;
        while i < rows.len()
            invariant
                i <= rows@.len(),
                all_lot_rows(rows@),
                ls@ == lots_of(rows@.take(i as int)),
            decreases rows@.len() - i,
        {
            ls.push(Lot::parse(&rows[i]));
            assert(rows@.take(i + 1) =~= rows@.take(i as int).push(rows@[i as int]));
            i = i + 1;
        }
        assert(rows@.take(i as int) =~= rows@);
        ls
    }

    /// Create a lot owned by a specific user.
    pub fn create(user: &User, name: &String, address: &String, price: i32, replies: &[Reply]) -> (step: Step<Result<Lot, DbError>>)
        requires
            replies@.len() > 0 && replies@[0] is Ok ==> lot_reply(replies@[0]),
        ensures
            replies@.len() == 0 ==> runs(
                step,
                CREATE_LOT@,
                seq![Value::Int(user.user_id), Value::Text(*name), Value::Text(*address), Value::Int(price)],
            ),
            replies@.len() > 0 ==> step == Step::Done(match replies@[0] {
                Ok(rows) => Ok(lot_of(rows@[0])),
                Err(e) => Err::<Lot, DbError>(e),
            }),
    {
        if replies.len() == 0 {
            let params = vec![
                Value::Int(user.user_id),
                Value::Text(name.clone()),
                Value::Text(address.clone()),
                Value::Int(price),
            ];
            return Step::Run(Query::new(CREATE_LOT, params));
        }
        match &replies[0] {
            Ok(rows) => Step::Done(Ok(Lot::parse(&rows[0]))),
            Err(e) => Step::Done(Err(e.duplicate())),
        }
    }

    /// Get all the lots for a user; none where the query fails.
    pub fn for_user(user: &User, replies: &[Reply]) -> (step: Step<Vec<Lot>>)
        requires
            replies@.len() > 0 ==> all_lot_rows(rows_of(replies@[0])),
        ensures
            replies@.len() == 0 ==> runs(step, LOTS_OF_OWNER@, seq![Value::Int(user.user_id)]),
            replies@.len() > 0 ==> (step matches Step::Done(ls) && ls@ == lots_of(rows_of(replies@[0]))),
    {
        if replies.len() == 0 {
            let params = vec![Value::Int(user.user_id)];
            assert(params@ =~= seq![Value::Int(user.user_id)]);
            return Step::Run(Query::new(LOTS_OF_OWNER, params));
        }
        match &replies[0] {
            Ok(rows) => Step::Done(Lot::parse_all(rows)),
            Err(_) => {
                assert(lots_of(Seq::<Row>::empty()) =~= Seq::<Lot>::empty());
                Step::Done(Vec::new())
            },
        }
    }

    /// Deletes the lot with this id.
    pub fn delete(id: i32, replies: &[Reply]) -> (step: Step<()>)
        requires
            replies@.len() > 0 ==> replies@[0] is Ok,
        ensures
            replies@.len() == 0 ==> runs(step, DELETE_LOT@, seq![Value::Int(id)]),
            replies@.len() > 0 ==> step == Step::Done(()),
    {
        if replies.len() == 0 {
            let params = vec![Value::Int(id)];
            assert(params@ =~= seq![Value::Int(id)]);
            return Step::Run(Query::new(DELETE_LOT, params));
        }
        Step::Done(())
    }

    /// Every lot.
    pub fn all_lots(replies: &[Reply]) -> (step: Step<Vec<Lot>>)
        requires
            replies@.len() > 0 ==> replies@[0] is Ok && all_lot_rows(rows_of(replies@[0])),
        ensures
            replies@.len() == 0 ==> runs(step, ALL_LOTS@, Seq::<Value>::empty()),
            replies@.len() > 0 ==> (step matches Step::Done(ls) && ls@ == lots_of(rows_of(replies@[0]))),
    {
        if replies.len() == 0 {
            let params: Vec<Value> = Vec::new();
            return Step::Run(Query::new(ALL_LOTS, params));
        }
        match &replies[0] {
            Ok(rows) => Step::Done(Lot::parse_all(rows)),
            Err(_) => Step::Done(Vec::new()),
        }
    }

    /// The lot with this id.
    pub fn for_id(id: i32, replies: &[Reply]) -> (step: Step<Lot>)
        requires
            replies@.len() > 0 ==> lot_reply(replies@[0]),
        ensures
            replies@.len() == 0 ==> runs(step, LOT_BY_ID@, seq![Value::Int(id)]),
            replies@.len() > 0 ==> step == Step::Done(lot_of(first_row(replies@[0]))),
    {
        if replies.len() == 0 {
            let params = vec![Value::Int(id)];
            assert(params@ =~= seq![Value::Int(id)]);
            return Step::Run(Query::new(LOT_BY_ID, params));
        }
        match &replies[0] {
            Ok(rows) => Step::Done(Lot::parse(&rows[0])),
            Err(_) => {
                proof {
                    assert(false);
                }
                Step::Run(Query::new(LOT_BY_ID, Vec::new()))
            },
        }
    }
}

/// What a lot row gives back of what `Lot::create` wrote: the row holding
/// the owner, name, address and price that were inserted (and the id and
/// open spaces the database holds) reads back as exactly that lot.
pub proof fn law_inserted_lot_reads_back(
    row: Row,
    id: i32,
    owner_id: i32,
    name: String,
    address: String,
    price: i32,
    spaces_open: i32,
)
    requires
        row.int_at("lot_id"@) == Some(id),
        row.int_at("owner_id"@) == Some(owner_id),
        row.text_at("name"@) == Some(name),
        row.text_at("address"@) == Some(address),
        row.int_at("price"@) == Some(price),
        row.int_at("spaces_open"@) == Some(spaces_open),
    ensures
        lot_row(row),
        lot_of(row) == (Lot { lot_id: id, owner_id, name, address, price, spaces_open }),
{
}

/// Represents a reservation event.
#[derive(Debug, PartialEq)]
pub struct Reservation {
    pub id: i32,
    pub vehicle: Vehicle,
    pub lot: Lot,
    pub start_time: i64,
    pub end_time: i64,
    pub human_time: String,
}

/// The row holds a reservation: its id, the ids of its vehicle and lot, and
/// its start and end as timestamps that chrono can represent.
pub open spec fn reservation_row(row: Row) -> bool {
    &&& row.int_at("reservation_id"@) is Some
    &&& row.int_at("vehicle_id"@) is Some
    &&& row.int_at("lot_id"@) is Some
    &&& row.time_at("start_time"@) matches Some(t) && representable(t as int)
    &&& row.time_at("end_time"@) matches Some(t) && representable(t as int)
}

/// The parameters of the query for the reserved vehicle.
pub open spec fn vehicle_params(row: Row) -> Seq<Value> {
    seq![Value::Int(row.int_at("vehicle_id"@).unwrap())]
}

/// The parameters of the query for the reserved lot.
pub open spec fn lot_params(row: Row) -> Seq<Value> {
    seq![Value::Int(row.int_at("lot_id"@).unwrap())]
}

/// The replies to the vehicle and lot queries of a reservation, taken from
/// `base` on, each brought back what it is read for.
pub open spec fn parse_ready(rs: Seq<Reply>, base: int) -> bool {
    &&& rs.len() > base ==> vehicle_reply(rs[base])
    &&& rs.len() > base + 1 ==> lot_reply(rs[base + 1])
}

/// The reservation is the one that the row holds, with the vehicle and lot
/// that the two replies brought back.
pub open spec fn reservation_from(r: Reservation, row: Row, vehicle: Reply, lot: Reply) -> bool {
    let start = row.time_at("start_time"@).unwrap();
    let end = row.time_at("end_time"@).unwrap();
    let l = lot_of(first_row(lot));
    &&& r.id == row.int_at("reservation_id"@).unwrap()
    &&& r.vehicle == vehicle_of(first_row(vehicle))
    &&& r.lot == l
    &&& r.start_time == start
    &&& r.end_time == end
    &&& r.human_time@ == human_time_text(start as int)
}

/// Reading the reservation in the row, with the replies from `base` on: the
/// vehicle is looked up, then the lot, then the reservation is complete.
pub open spec fn parse_step(step: Step<Reservation>, row: Row, rs: Seq<Reply>, base: int) -> bool {
    if rs.len() <= base {
        runs(step, RESERVED_VEHICLE@, vehicle_params(row))
    } else if rs.len() == base + 1 {
        runs(step, RESERVED_LOT@, lot_params(row))
    } else {
        step matches Step::Done(r) && reservation_from(r, row, rs[base], rs[base + 1])
    }
}

/// Every row holds a reservation whose replies, two to a row from `base` on,
/// brought back what they are read for.
pub open spec fn list_ready(rows: Seq<Row>, rs: Seq<Reply>, base: int) -> bool {
    forall|i: int| 0 <= i < rows.len() ==> reservation_row(#[trigger] rows[i]) && parse_ready(rs, base + 2 * i)
}

/// The query that reading the reservations in the rows runs next, with two
/// replies to a row from `base` on: the vehicle of the row whose turn it
/// is, then its lot.
pub open spec fn list_sql(rows: Seq<Row>, rs: Seq<Reply>, base: int) -> Seq<char> {
    if (rs.len() - base) % 2 == 0 {
        RESERVED_VEHICLE@
    } else {
        RESERVED_LOT@
    }
}

/// The parameters of the query that `list_sql` names.
pub open spec fn list_params(rows: Seq<Row>, rs: Seq<Reply>, base: int) -> Seq<Value> {
    let i = (rs.len() - base) / 2;
    if (rs.len() - base) % 2 == 0 {
        vehicle_params(rows[i])
    } else {
        lot_params(rows[i])
    }
}

/// The reservations are those the rows hold, read with two replies to a
/// row from `base` on.
pub open spec fn list_done(v: Seq<Reservation>, rows: Seq<Row>, rs: Seq<Reply>, base: int) -> bool {
    &&& v.len() == rows.len()
    &&& forall|i: int| 0 <= i < rows.len() ==> reservation_from(#[trigger] v[i], rows[i], rs[base + 2 * i], rs[base + 2 * i + 1])
}

/// Reading the reservations in the rows, one after another, with two
/// replies to a row from `base` on.
pub open spec fn list_step(step: Step<Vec<Reservation>>, rows: Seq<Row>, rs: Seq<Reply>, base: int) -> bool {
    if rs.len() - base < 2 * rows.len() {
        runs(step, list_sql(rows, rs, base), list_params(rows, rs, base))
    } else {
        step matches Step::Done(v) && list_done(v@, rows, rs, base)
    }
}

/// The step, for an operation whose result is a `Result`: the same query,
/// or the successful result; `None` for a failure.
pub open spec fn ok_step<T, E>(step: Step<Result<T, E>>) -> Option<Step<T>> {
    match step {
        Step::Run(q) => Some(Step::Run(q)),
        Step::Done(Ok(t)) => Some(Step::Done(t)),
        Step::Done(Err(_)) => None,
    }
}

impl Reservation {
    fn parse_at(row: &Row, replies: &[Reply], base: usize) -> (step: Step<Reservation>)
        requires
            reservation_row(*row),
            parse_ready(replies@, base as int),
        ensures
            parse_step(step, *row, replies@, base as int),
    {
        if replies.len() <= base {
            let params = vec![Value::Int(row.get_int("vehicle_id").unwrap())];
            assert(params@ =~= vehicle_params(*row));
            return Step::Run(Query::new(RESERVED_VEHICLE, params));
        }
        if replies.len() == base + 1 {
            let params = vec![Value::Int(row.get_int("lot_id").unwrap())];
            assert(params@ =~= lot_params(*row));
            return Step::Run(Query::new(RESERVED_LOT, params));
        }
        let v = match &replies[base] {
            Ok(rows) => Vehicle::parse(&rows[0]),
            Err(_) => {
                proof {
                    assert(false);
                }
                return Step::Run(Query::new(RESERVED_VEHICLE, Vec::new()));
            },
        };
        let l = match &replies[base + 1] {
            Ok(rows) => Lot::parse(&rows[0]),
            Err(_) => {
                proof {
                    assert(false);
                }
                return Step::Run(Query::new(RESERVED_VEHICLE, Vec::new()));
            },
        };
        let start_time = row.get_time("start_time").unwrap();
        let end_time = row.get_time("end_time").unwrap();
        let human_time = format_human_time(start_time).unwrap();
        Step::Done(Reservation {
            id: row.get_int("reservation_id").unwrap(),
            vehicle: v,
            lot: l,
            start_time,
            end_time,
            human_time,
        })
    }

    /// parse a reservation from a database row: the vehicle and then the
    /// lot it refers to are looked up first
    pub fn parse(row: &Row, replies: &[Reply]) -> (step: Step<Reservation>)
        requires
            reservation_row(*row),
            parse_ready(replies@, 0),
        ensures
            parse_step(step, *row, replies@, 0),
    {
        Reservation::parse_at(row, replies, 0)
    }

    pub(crate) fn parse_list(rows: &Vec<Row>, replies: &[Reply], base: usize) -> (step: Step<Vec<Reservation>>)
        requires
            base <= replies@.len(),
            list_ready(rows@, replies@, base as int),
        ensures
            list_step(step, rows@, replies@, base as int),
    {
        let k = replies.len() - base;
        if k / 2 < rows.len() {
            let i = k / 2;
            assert(reservation_row(rows@[i as int]));
            assert(parse_ready(replies@, base + 2 * i));
            return match Reservation::parse_at(&rows[i], replies, base + 2 * i) {
                Step::Run(q) => Step::Run(q),
                Step::Done(_) => {
                    proof {
                        assert(false);
                    }
                    Step::Done(Vec::new())
                },
            };
        }
        let mut v: Vec<Reservation> = Vec::new();
        let mut j: usize = 0;
        while j < rows.len()
            invariant
                j <= rows@.len(),
                base + 2 * rows@.len() <= replies@.len(),
                replies@.len() == replies.len(),
                list_ready(rows@, replies@, base as int),
                v@.len() == j,
                forall|i: int| 0 <= i < j ==> reservation_from(#[trigger] v@[i], rows@[i], replies@[base + 2 * i], replies@[base + 2 * i + 1]),
            decreases rows@.len() - j,
        {
            assert(reservation_row(rows@[j as int]));
            assert(parse_ready(replies@, base + 2 * j));
            match Reservation::parse_at(&rows[j], replies, base + 2 * j) {
                Step::Done(r) => {
                    v.push(r);
                },
                Step::Run(_) => {
                    proof {
                        assert(false);
                    }
                },
            }
            j = j + 1;
        }
        Step::Done(v)
    }

    /// Add a reservation to the DB and return it.
    pub fn create(vid: i32, lid: i32, start: i64, end: i64, replies: &[Reply]) -> (step: Step<Result<Reservation, DbError>>)
        requires
            replies@.len() > 0 && replies@[0] is Ok ==> {
                &&& returned_rows(replies@[0])
                &&& reservation_row(first_row(replies@[0]))
                &&& parse_ready(replies@, 1)
            },
        ensures
            replies@.len() == 0 ==> runs(
                step,
                CREATE_RESERVATION@,
                seq![Value::Int(vid), Value::Int(lid), Value::Time(start), Value::Time(end)],
            ),
            replies@.len() > 0 ==> match replies@[0] {
                Ok(rows) => ok_step(step) matches Some(s) && parse_step(s, rows@[0], replies@, 1),
                Err(e) => step == Step::Done(Err::<Reservation, DbError>(e)),
            },
    {
        if replies.len() == 0 {
            let params = vec![Value::Int(vid), Value::Int(lid), Value::Time(start), Value::Time(end)];
            return Step::Run(Query::new(CREATE_RESERVATION, params));
        }
        match &replies[0] {
            Ok(rows) => match Reservation::parse_at(&rows[0], replies, 1) {
                Step::Run(q) => Step::Run(q),
                Step::Done(r) => Step::Done(Ok(r)),
            },
            Err(e) => Step::Done(Err(e.duplicate())),
        }
    }

    /// The reservations of the user: those in the lots they own, for an
    /// owner; those of the vehicles they drive, for a parker.
    pub fn for_user(user: &User, replies: &[Reply]) -> (step: Step<Vec<Reservation>>)
        requires
            replies@.len() > 0 ==> replies@[0] is Ok && list_ready(rows_of(replies@[0]), replies@, 1),
        ensures
            replies@.len() == 0 ==> runs(
                step,
                if user.acct_type == UserType::Owner {
                    RESERVATIONS_OF_OWNER@
                } else {
                    RESERVATIONS_OF_PARKER@
                },
                seq![Value::Int(user.user_id)],
            ),
            replies@.len() > 0 ==> list_step(step, rows_of(replies@[0]), replies@, 1),
    {
        if replies.len() == 0 {
            let params = vec![Value::Int(user.user_id)];
            assert(params@ =~= seq![Value::Int(user.user_id)]);
            let sql = match user.acct_type {
                UserType::Owner => RESERVATIONS_OF_OWNER,
                UserType::Parker => RESERVATIONS_OF_PARKER,
            };
            return Step::Run(Query::new(sql, params));
        }
        match &replies[0] {
            Ok(rows) => Reservation::parse_list(rows, replies, 1),
            Err(_) => {
                proof {
                    assert(false);
                }
                Step::Done(Vec::new())
            },
        }
    }
}

} // verus!
