//! Drivers' vehicles.

use vstd::prelude::*;
use crate::db::{first_row, returned_rows, rows_of, runs, DbError, Query, Reply, Row, Step, Value};
use crate::user::User;

verus! {

pub const CREATE_VEHICLE: &'static str = "INSERT INTO vehicles(driver_id, license_plate, name)
                              VALUES ($1, $2, $3)
                              RETURNING *;";

pub const VEHICLES_OF_DRIVER: &'static str = "SELECT * FROM VEHICLES WHERE driver_id = $1;";

pub const DELETE_VEHICLE: &'static str = "DELETE FROM VEHICLES WHERE vehicle_id = $1;";

/// Represents a single instance of a driver's vehicle.
#[derive(Debug, PartialEq)]
pub struct Vehicle {
    pub vehicle_id: i32,
    pub driver_id: i32,
    pub license_plate: String,
    pub name: String,
}

/// The row holds a vehicle.
pub open spec fn vehicle_row(row: Row) -> bool {
    &&& row.int_at("vehicle_id"@) is Some
    &&& row.int_at("driver_id"@) is Some
    &&& row.text_at("license_plate"@) is Some
    &&& row.text_at("name"@) is Some
}

/// The vehicle that a vehicle row holds.
pub open spec fn vehicle_of(row: Row) -> Vehicle {
    Vehicle {
        vehicle_id: row.int_at("vehicle_id"@).unwrap(),
        driver_id: row.int_at("driver_id"@).unwrap(),
        license_plate: row.text_at("license_plate"@).unwrap(),
        name: row.text_at("name"@).unwrap(),
    }
}

/// The reply brought back a first row, and it holds a vehicle.
pub open spec fn vehicle_reply(reply: Reply) -> bool {
    returned_rows(reply) && vehicle_row(first_row(reply))
}

/// The vehicles that the rows hold, in order.
pub open spec fn vehicles_of(rows: Seq<Row>) -> Seq<Vehicle> {
    rows.map_values(|r: Row| vehicle_of(r))
}

/// Every row holds a vehicle.
pub open spec fn all_vehicle_rows(rows: Seq<Row>) -> bool {
    forall|i: int| 0 <= i < rows.len() ==> vehicle_row(#[trigger] rows[i])
}

/// The vehicles listed from rows are the rows' vehicles, one per row and in
/// order.
pub proof fn law_vehicles_of_each_row(rows: Seq<Row>)
    ensures
        vehicles_of(rows).len() == rows.len(),
        forall|i: int| 0 <= i < rows.len() ==> #[trigger] vehicles_of(rows)[i] == vehicle_of(rows[i]),
{
}

/// What a vehicle row gives back of what `Vehicle::create` wrote: the row
/// holding the driver, plate and name that were inserted (and the id the
/// database chose) reads back as exactly that vehicle.
pub proof fn law_inserted_vehicle_reads_back(row: Row, id: i32, driver_id: i32, license_plate: String, name: String)
    requires
        row.int_at("vehicle_id"@) == Some(id),
        row.int_at("driver_id"@) == Some(driver_id),
        row.text_at("license_plate"@) == Some(license_plate),
        row.text_at("name"@) == Some(name),
    ensures
        vehicle_row(row),
        vehicle_of(row) == (Vehicle { vehicle_id: id, driver_id, license_plate, name }),
{
}

impl Vehicle {
    /// Parses a vehicle from a database row.
    pub fn parse(row: &Row) -> (v: Vehicle)
        requires
            vehicle_row(*row),
        ensures
            v == vehicle_of(*row),
    {
        Vehicle {
            vehicle_id: row.get_int("vehicle_id").unwrap(),
            driver_id: row.get_int("driver_id").unwrap(),
            license_plate: row.get_text("license_plate").unwrap(),
            name: row.get_text("name").unwrap(),
        }
    }

    /// Parses every row, in order.
    pub fn parse_all(rows: &Vec<Row>) -> (vs: Vec<Vehicle>)
        requires
            all_vehicle_rows(rows@),
        ensures
            vs@ == vehicles_of(rows@),
    {
        let mut vs: Vec<Vehicle> = Vec::new();
        let mut i: usize = 0;
        while i < rows.len()
            invariant
                i <= rows@.len(),
                all_vehicle_rows(rows@),
                vs@ == vehicles_of(rows@.take(i as int)),
            decreases rows@.len() - i,
        {
            vs.push(Vehicle::parse(&rows[i]));
            assert(rows@.take(i + 1) =~= rows@.take(i as int).push(rows@[i as int]));
            i = i + 1;
        }
        assert(rows@.take(i as int) =~= rows@);
        vs
    }

    /// Adds a vehicle for the user.
    pub fn create(user: &User, license: &String, name: &String, replies: &[Reply]) -> (step: Step<Result<Vehicle, DbError>>)
        requires
            replies@.len() > 0 && replies@[0] is Ok ==> vehicle_reply(replies@[0]),
        ensures
            replies@.len() == 0 ==> runs(
                step,
                CREATE_VEHICLE@,
                seq![Value::Int(user.user_id), Value::Text(*license), Value::Text(*name)],
            ),
            replies@.len() > 0 ==> step == Step::Done(match replies@[0] {
                Ok(rows) => Ok(vehicle_of(rows@[0])),
                Err(e) => Err::<Vehicle, DbError>(e),
            }),
    {
        if replies.len() == 0 {
            let params = vec![Value::Int(user.user_id), Value::Text(license.clone()), Value::Text(name.clone())];
            return Step::Run(Query::new(CREATE_VEHICLE, params));
        }
        match &replies[0] {
            Ok(rows) => Step::Done(Ok(Vehicle::parse(&rows[0]))),
            Err(e) => Step::Done(Err(e.duplicate())),
        }
    }

    /// The user's vehicles; none where the query fails.
    pub fn for_user(user: &User, replies: &[Reply]) -> (step: Step<Vec<Vehicle>>)
        requires
            replies@.len() > 0 ==> all_vehicle_rows(rows_of(replies@[0])),
        ensures
            replies@.len() == 0 ==> runs(step, VEHICLES_OF_DRIVER@, seq![Value::Int(user.user_id)]),
            replies@.len() > 0 ==> (step matches Step::Done(vs) && vs@ == vehicles_of(rows_of(replies@[0]))),
    {
        if replies.len() == 0 {
            let params = vec![Value::Int(user.user_id)];
            assert(params@ =~= seq![Value::Int(user.user_id)]);
            return Step::Run(Query::new(VEHICLES_OF_DRIVER, params));
        }
        match &replies[0] {
            Ok(rows) => Step::Done(Vehicle::parse_all(rows)),
            Err(_) => {
                assert(vehicles_of(Seq::<Row>::empty()) =~= Seq::<Vehicle>::empty());
                Step::Done(Vec::new())
            },
        }
    }

    /// Deletes the vehicle with this id.
    pub fn delete(id: i32, replies: &[Reply]) -> (step: Step<()>)
        requires
            replies@.len() > 0 ==> replies@[0] is Ok,
        ensures
            replies@.len() == 0 ==> runs(step, DELETE_VEHICLE@, seq![Value::Int(id)]),
            replies@.len() > 0 ==> step == Step::Done(()),
    {
        if replies.len() == 0 {
            let params = vec![Value::Int(id)];
            assert(params@ =~= seq![Value::Int(id)]);
            return Step::Run(Query::new(DELETE_VEHICLE, params));
        }
        Step::Done(())
    }
}

} // verus!
