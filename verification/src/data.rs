use vstd::prelude::*;

verus! {

/// A registered driver. `user_id` is the unique key and doubles as the
/// caller identity the host authenticated.
#[derive(Debug, PartialEq, Eq)]
pub struct User {
    pub user_id: String,
    pub name: String,
    pub driving_license: String,
}

/// A registered car owner. `owner_id` is the unique key and doubles as
/// the caller identity the host authenticated.
#[derive(Debug, PartialEq, Eq)]
pub struct Owner {
    pub owner_id: String,
    pub name: String,
}

/// A listed car. `owner_id` references the Owner that listed it;
/// `hourly_rate` is in the currency's smallest unit and is never zero;
/// `available` is the two-state rental discriminant.
#[derive(Debug, PartialEq, Eq)]
pub struct Car {
    pub car_id: String,
    pub owner_id: String,
    pub available: bool,
    pub hourly_rate: u128,
}

/// A live reservation of one car over `[start_time, end_time)`,
/// nanosecond timestamps. `booking_id` is the derived unique key;
/// `deposit` is the amount the booking caller actually paid.
#[derive(Debug, PartialEq, Eq)]
pub struct Booking {
    pub booking_id: String,
    pub car_id: String,
    pub user_id: String,
    pub start_time: u64,
    pub end_time: u64,
    pub deposit: u128,
}

/// A domain event, one variant per successful mutating operation.
/// The ledger appends these to the sink its caller passes in; emission
/// never fails a transition.
#[derive(Debug, PartialEq, Eq)]
pub enum Event {
    OwnerCreated { owner_id: String },
    UserCreated { user_id: String },
    CarAdded { car_id: String, owner_id: String },
    CarDeleted { car_id: String },
    CarBooked { car_id: String, user_id: String, start_time: u64, end_time: u64, deposit: u128 },
    BookingCancelled { booking_id: String, user_id: String, deposit_retained: u128 },
    CarRented { car_id: String, user_id: String, duration: u32 },
    CarReturned { car_id: String },
}

impl Clone for Car {
    fn clone(&self) -> (r: Self)
        ensures
            r == *self,
    {
        Car {
            car_id: self.car_id.clone(),
            owner_id: self.owner_id.clone(),
            available: self.available,
            hourly_rate: self.hourly_rate,
        }
    }
}

impl Clone for Booking {
    fn clone(&self) -> (r: Self)
        ensures
            r == *self,
    {
        Booking {
            booking_id: self.booking_id.clone(),
            car_id: self.car_id.clone(),
            user_id: self.user_id.clone(),
            start_time: self.start_time,
            end_time: self.end_time,
            deposit: self.deposit,
        }
    }
}

} // verus!
