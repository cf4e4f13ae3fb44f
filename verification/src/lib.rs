//! A parking-lot reservation service: users (drivers and lot owners),
//! vehicles, lots, reservations and bookings, with the database traffic
//! described as queries and replies so that every decision is verified.

pub mod booking;
pub mod clock;
pub mod db;
pub mod lot;
pub mod routes;
pub mod structs;
pub mod user;
pub mod vehicle;
