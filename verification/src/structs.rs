//! The data model as first laid out: the records the service keeps.

use vstd::prelude::*;

verus! {

pub enum UserType {
    Driver,
    Owner,
}

pub struct User {
    id: u64,
    pub email: String,
    pub pass_hash: String,
    pub acct_type: UserType,
}

pub struct Lot {
    id: u64,
    owner_id: u64,
    pub name: String,
    pub address: String,
    /// Cents per minute.
    pub pricing: u64,
}

pub struct Spot {
    id: u64,
    lot_id: u64,
    pub name: String,
}

pub struct Booking {
    id: u64,
    // The driver is known from the vehicle.
    spot_id: u64,
    vehicle_id: u64,
    /// Minutes since midnight.
    pub start_time: u16,
    pub end_time: u16,
    /// Days since 1970-01-01.
    pub start_date: u32,
    /// Days since `start_date`; 0 for one-time reservations.
    pub duration: u32,
    pub recurring_weekdays: [bool; 7],
}

pub struct Vehicle {
    id: u64,
    driver_id: u64,
    pub license_plate: String,
    pub name: String,
}

pub struct Report {
    id: u64,
    pub reporting_user: u64,
    pub offending_user: u64,
    pub report_info: String,
}

pub struct PaymentMethod {
    id: u64,
    driver_id: u64,
    pub card_number: String,
}

} // verus!
