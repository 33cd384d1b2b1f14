//! Verified core of a peer-to-peer car-rental ledger.
//!
//! The ledger owns four keyed collections (users, owners, cars, bookings)
//! and exposes atomic state transitions over them: account registration,
//! fleet listing, time-boxed bookings, immediate rentals, and
//! deposit-forfeiture-on-cancellation. Everything the host supplies
//! (caller identity, current time, attached payment) enters as a plain
//! argument, and every emitted domain event is appended to a sink the
//! caller passes in.

mod data;
mod error;
mod identity;
mod keys;
pub mod laws;
mod ledger;

pub use data::{Booking, Car, Event, Owner, User};
pub use error::Error;
pub use identity::{is_identity_char, is_separator, valid_identity};
pub use keys::{booking_key, dec_str, digit_char};
pub use ledger::{
    booking_in_window, booking_overlaps, bookings_wf, cars_unique, contains_id, intervals_overlap,
    no_overlaps, owners_unique, rental_fee, rental_hours, required_deposit,
    some_booking_in_window, some_booking_overlaps, users_unique, CarSharing, NANOS_PER_HOUR,
};
