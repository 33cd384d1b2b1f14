use vstd::prelude::*;

use crate::data::{Booking, Car, Event, Owner, User};
use crate::error::Error;
use crate::identity::{check_identity, valid_identity};
use crate::keys::{booking_key, make_booking_id};

verus! {

/// Nanoseconds in one hour: rental durations are billed in whole hours.
pub const NANOS_PER_HOUR: u64 = 3600000000000;

/// The fleet ledger: four keyed collections plus the two identity
/// registries used for authorization. Each collection is a vector whose
/// entries carry their own key, kept unique (see `wf`).
pub struct CarSharing {
    pub users: Vec<User>,
    pub owners: Vec<Owner>,
    pub cars: Vec<Car>,
    pub bookings: Vec<Booking>,
    pub users_accounts: Vec<String>,
    pub owners_accounts: Vec<String>,
}

/// Membership of an identity in a registry of identity strings.
pub open spec fn contains_id(v: Seq<String>, id: Seq<char>) -> bool {
    exists|i: int| 0 <= i < v.len() && (#[trigger] v[i])@ == id
}

/// Owner keys are pairwise distinct.
pub open spec fn owners_unique(s: Seq<Owner>) -> bool {
    forall|i: int, j: int|
        0 <= i < j < s.len() ==> (#[trigger] s[i]).owner_id@ != (#[trigger] s[j]).owner_id@
}

/// User keys are pairwise distinct.
pub open spec fn users_unique(s: Seq<User>) -> bool {
    forall|i: int, j: int|
        0 <= i < j < s.len() ==> (#[trigger] s[i]).user_id@ != (#[trigger] s[j]).user_id@
}

/// Car keys are pairwise distinct.
pub open spec fn cars_unique(s: Seq<Car>) -> bool {
    forall|i: int, j: int|
        0 <= i < j < s.len() ==> (#[trigger] s[i]).car_id@ != (#[trigger] s[j]).car_id@
}

/// Two closed-open time intervals share at least one instant.
pub open spec fn intervals_overlap(s1: u64, e1: u64, s2: u64, e2: u64) -> bool {
    s1 < e2 && s2 < e1
}

/// A live booking for `car_id` intersects `[start_time, end_time)`.
pub open spec fn booking_overlaps(b: Booking, car_id: Seq<char>, start_time: u64, end_time: u64) -> bool {
    b.car_id@ == car_id && intervals_overlap(start_time, end_time, b.start_time, b.end_time)
}

/// Some booking in `bs` for the same car intersects the interval.
pub open spec fn some_booking_overlaps(
    bs: Seq<Booking>,
    car_id: Seq<char>,
    start_time: u64,
    end_time: u64,
) -> bool {
    exists|i: int| 0 <= i < bs.len() && booking_overlaps(#[trigger] bs[i], car_id, start_time, end_time)
}

/// No two distinct bookings of one car have intersecting intervals.
pub open spec fn no_overlaps(bs: Seq<Booking>) -> bool {
    forall|i: int, j: int|
        0 <= i < bs.len() && 0 <= j < bs.len() && i != j && (#[trigger] bs[i]).car_id@ == (
        #[trigger] bs[j]).car_id@ ==> !intervals_overlap(
            bs[i].start_time,
            bs[i].end_time,
            bs[j].start_time,
            bs[j].end_time,
        )
}

/// The booking collection's invariant: distinct keys, each key derived
/// from the booking's own fields, non-empty intervals, and no overlap
/// per car.
pub open spec fn bookings_wf(bs: Seq<Booking>) -> bool {
    &&& forall|i: int, j: int|
        0 <= i < j < bs.len() ==> (#[trigger] bs[i]).booking_id@ != (#[trigger] bs[j]).booking_id@
    &&& forall|i: int|
        0 <= i < bs.len() ==> (#[trigger] bs[i]).booking_id@ == booking_key(
            bs[i].car_id@,
            bs[i].user_id@,
            bs[i].start_time,
        )
    &&& forall|i: int| 0 <= i < bs.len() ==> (#[trigger] bs[i]).start_time < bs[i].end_time
    &&& no_overlaps(bs)
}

/// Whole hours in `[start_time, end_time)`, floor division.
pub open spec fn rental_hours(start_time: u64, end_time: u64) -> int {
    (end_time - start_time) / (NANOS_PER_HOUR as int)
}

/// The rental fee: whole hours times the hourly rate.
pub open spec fn rental_fee(hourly_rate: u128, start_time: u64, end_time: u64) -> int {
    rental_hours(start_time, end_time) * hourly_rate
}

/// The mandatory deposit for an advance booking: nine times one tenth
/// of the fee. The division happens first, so the result is not the
/// same as ninety percent rounded down for fees not divisible by ten;
/// that order is part of the interface and is kept exactly.
pub open spec fn required_deposit(fee: int) -> int {
    (fee / 10) * 9
}

impl CarSharing {
    /// An owner record with this key exists.
    pub open spec fn has_owner(self, owner_id: Seq<char>) -> bool {
        exists|i: int| 0 <= i < self.owners@.len() && (#[trigger] self.owners@[i]).owner_id@ == owner_id
    }

    /// A user record with this key exists.
    pub open spec fn has_user(self, user_id: Seq<char>) -> bool {
        exists|i: int| 0 <= i < self.users@.len() && (#[trigger] self.users@[i]).user_id@ == user_id
    }

    /// A car record with this key exists.
    pub open spec fn has_car(self, car_id: Seq<char>) -> bool {
        exists|i: int| 0 <= i < self.cars@.len() && (#[trigger] self.cars@[i]).car_id@ == car_id
    }

    /// A booking record with this key exists.
    pub open spec fn has_booking(self, booking_id: Seq<char>) -> bool {
        exists|i: int|
            0 <= i < self.bookings@.len() && (#[trigger] self.bookings@[i]).booking_id@ == booking_id
    }

    /// The index of the car with this key (unique under `wf`).
    pub open spec fn car_index(self, car_id: Seq<char>) -> int {
        choose|i: int| 0 <= i < self.cars@.len() && (#[trigger] self.cars@[i]).car_id@ == car_id
    }

    /// The car record with this key (meaningful when `has_car` holds).
    pub open spec fn car_at(self, car_id: Seq<char>) -> Car {
        self.cars@[self.car_index(car_id)]
    }

    /// The index of the booking with this key (unique under `wf`).
    pub open spec fn booking_index(self, booking_id: Seq<char>) -> int {
        choose|i: int|
            0 <= i < self.bookings@.len() && (#[trigger] self.bookings@[i]).booking_id@ == booking_id
    }

    /// The identity is registered as an owner.
    pub open spec fn is_owner_spec(self, account_id: Seq<char>) -> bool {
        contains_id(self.owners_accounts@, account_id)
    }

    /// The identity is registered as a user.
    pub open spec fn is_user_spec(self, account_id: Seq<char>) -> bool {
        contains_id(self.users_accounts@, account_id)
    }

    /// The ledger's invariant: every collection has pairwise distinct
    /// keys and the bookings of each car are pairwise disjoint in time.
    pub open spec fn wf(self) -> bool {
        &&& owners_unique(self.owners@)
        &&& users_unique(self.users@)
        &&& cars_unique(self.cars@)
        &&& bookings_wf(self.bookings@)
    }

    /// Creates an empty ledger.
    pub fn init() -> (s: Self)
        ensures
            s.users@.len() == 0,
            s.owners@.len() == 0,
            s.cars@.len() == 0,
            s.bookings@.len() == 0,
            s.users_accounts@.len() == 0,
            s.owners_accounts@.len() == 0,
            s.wf(),
    {
        CarSharing {
            users: Vec::new(),
            owners: Vec::new(),
            cars: Vec::new(),
            bookings: Vec::new(),
            users_accounts: Vec::new(),
            owners_accounts: Vec::new(),
        }
    }

    /// The identity is registered as an owner (sole authorization
    /// mechanism for adding cars).
    pub fn is_owner(&self, account_id: &String) -> (r: bool)
        ensures
            r == self.is_owner_spec(account_id@),
    {
        contains_identity(&self.owners_accounts, account_id)
    }

    /// The identity is registered as a user (sole authorization
    /// mechanism for booking and renting).
    pub fn is_user(&self, account_id: &String) -> (r: bool)
        ensures
            r == self.is_user_spec(account_id@),
    {
        contains_identity(&self.users_accounts, account_id)
    }

    /// Whether registering this owner would fail, and how.
    pub open spec fn create_owner_outcome(self, owner_id: Seq<char>) -> Option<Error> {
        if self.has_owner(owner_id) {
            Some(Error::OwnerAlreadyExists)
        } else if !valid_identity(owner_id) {
            Some(Error::InvalidIdentity)
        } else {
            None
        }
    }

    /// Registers an owner account: fails if the key is taken or the
    /// identity is not syntactically valid; otherwise records the owner,
    /// registers the identity, and emits `OwnerCreated`.
    pub fn create_owner_account(
        &mut self,
        owner_id: String,
        name: String,
        events: &mut Vec<Event>,
    ) -> (r: Result<(), Error>)
        requires
            old(self).wf(),
        ensures
            final(self).wf(),
            match r {
                Ok(_) => {
                    &&& old(self).create_owner_outcome(owner_id@) is None
                    &&& final(self).owners@ == old(self).owners@.push(
                        Owner { owner_id: owner_id, name: name },
                    )
                    &&& final(self).owners_accounts@ == old(self).owners_accounts@.push(owner_id)
                    &&& final(self).users@ == old(self).users@
                    &&& final(self).cars@ == old(self).cars@
                    &&& final(self).bookings@ == old(self).bookings@
                    &&& final(self).users_accounts@ == old(self).users_accounts@
                    &&& final(events)@ == old(events)@.push(Event::OwnerCreated { owner_id: owner_id })
                },
                Err(e) => {
                    &&& old(self).create_owner_outcome(owner_id@) == Some(e)
                    &&& *final(self) == *old(self)
                    &&& final(events)@ == old(events)@
                },
            },
    {
        if self.owner_record_exists(&owner_id) {
            return Err(Error::OwnerAlreadyExists);
        }
        if !check_identity(&owner_id) {
            return Err(Error::InvalidIdentity);
        }
        self.owners.push(Owner { owner_id: owner_id.clone(), name });
        self.owners_accounts.push(owner_id.clone());
        events.push(Event::OwnerCreated { owner_id });
        Ok(())
    }

    /// Whether registering this user would fail, and how.
    pub open spec fn create_user_outcome(self, user_id: Seq<char>) -> Option<Error> {
        if self.has_user(user_id) {
            Some(Error::UserAlreadyExists)
        } else if !valid_identity(user_id) {
            Some(Error::InvalidIdentity)
        } else {
            None
        }
    }

    /// Registers a user (driver) account: fails if the key is taken or
    /// the identity is not syntactically valid; otherwise records the
    /// user, registers the identity, and emits `UserCreated`. The
    /// driving license is stored without further validation.
    pub fn create_user_account(
        &mut self,
        user_id: String,
        name: String,
        driving_license: String,
        events: &mut Vec<Event>,
    ) -> (r: Result<(), Error>)
        requires
            old(self).wf(),
        ensures
            final(self).wf(),
            match r {
                Ok(_) => {
                    &&& old(self).create_user_outcome(user_id@) is None
                    &&& final(self).users@ == old(self).users@.push(
                        User { user_id: user_id, name: name, driving_license: driving_license },
                    )
                    &&& final(self).users_accounts@ == old(self).users_accounts@.push(user_id)
                    &&& final(self).owners@ == old(self).owners@
                    &&& final(self).cars@ == old(self).cars@
                    &&& final(self).bookings@ == old(self).bookings@
                    &&& final(self).owners_accounts@ == old(self).owners_accounts@
                    &&& final(events)@ == old(events)@.push(Event::UserCreated { user_id: user_id })
                },
                Err(e) => {
                    &&& old(self).create_user_outcome(user_id@) == Some(e)
                    &&& *final(self) == *old(self)
                    &&& final(events)@ == old(events)@
                },
            },
    {
        if self.user_record_exists(&user_id) {
            return Err(Error::UserAlreadyExists);
        }
        if !check_identity(&user_id) {
            return Err(Error::InvalidIdentity);
        }
        self.users.push(User { user_id: user_id.clone(), name, driving_license });
        self.users_accounts.push(user_id.clone());
        events.push(Event::UserCreated { user_id });
        Ok(())
    }

    /// Linear scan for an owner record with this key.
    fn owner_record_exists(&self, owner_id: &String) -> (r: bool)
        ensures
            r == self.has_owner(owner_id@),
    {
        let mut i: usize = 0;
        while i < self.owners.len()
            invariant
                i <= self.owners@.len(),
                forall|j: int| 0 <= j < i ==> (#[trigger] self.owners@[j]).owner_id@ != owner_id@,
            decreases self.owners@.len() - i,
        {
            if self.owners[i].owner_id == *owner_id {
                return true;
            }
            i += 1;
        }
        false
    }

    /// Linear scan for a user record with this key.
    fn user_record_exists(&self, user_id: &String) -> (r: bool)
        ensures
            r == self.has_user(user_id@),
    {
        let mut i: usize = 0;
        while i < self.users.len()
            invariant
                i <= self.users@.len(),
                forall|j: int| 0 <= j < i ==> (#[trigger] self.users@[j]).user_id@ != user_id@,
            decreases self.users@.len() - i,
        {
            if self.users[i].user_id == *user_id {
                return true;
            }
            i += 1;
        }
        false
    }
}

/// Filtering past a pushed element keeps the element exactly when the
/// predicate accepts it.
pub(crate) proof fn lemma_filter_push<A>(s: Seq<A>, x: A, pred: spec_fn(A) -> bool)
    ensures
        s.push(x).filter(pred) == if pred(x) {
            s.filter(pred).push(x)
        } else {
            s.filter(pred)
        },
{
    reveal(Seq::filter);
    assert(s.push(x).drop_last() =~= s);
    assert(s.push(x).last() == x);
}

impl CarSharing {
    /// Whether adding this car would fail, and how.
    pub open spec fn add_car_outcome(
        self,
        car_id: Seq<char>,
        owner_id: Seq<char>,
        hourly_rate: u128,
        caller: Seq<char>,
    ) -> Option<Error> {
        if !self.is_owner_spec(caller) {
            Some(Error::Unauthorized)
        } else if self.has_car(car_id) {
            Some(Error::CarAlreadyExists)
        } else if !self.has_owner(owner_id) {
            Some(Error::OwnerNotFound)
        } else if hourly_rate == 0 {
            Some(Error::InvalidRate)
        } else {
            None
        }
    }

    /// Lists a car: the caller must be a registered owner, the key must
    /// be free, the referenced owner must exist and the rate must be
    /// positive. The car starts out available; emits `CarAdded`.
    pub fn add_car(
        &mut self,
        car_id: String,
        owner_id: String,
        hourly_rate: u128,
        caller: &String,
        events: &mut Vec<Event>,
    ) -> (r: Result<(), Error>)
        requires
            old(self).wf(),
        ensures
            final(self).wf(),
            match r {
                Ok(_) => {
                    &&& old(self).add_car_outcome(car_id@, owner_id@, hourly_rate, caller@) is None
                    &&& final(self).cars@ == old(self).cars@.push(
                        Car {
                            car_id: car_id,
                            owner_id: owner_id,
                            available: true,
                            hourly_rate: hourly_rate,
                        },
                    )
                    &&& final(self).users@ == old(self).users@
                    &&& final(self).owners@ == old(self).owners@
                    &&& final(self).bookings@ == old(self).bookings@
                    &&& final(self).users_accounts@ == old(self).users_accounts@
                    &&& final(self).owners_accounts@ == old(self).owners_accounts@
                    &&& final(events)@ == old(events)@.push(
                        Event::CarAdded { car_id: car_id, owner_id: owner_id },
                    )
                },
                Err(e) => {
                    &&& old(self).add_car_outcome(car_id@, owner_id@, hourly_rate, caller@) == Some(e)
                    &&& *final(self) == *old(self)
                    &&& final(events)@ == old(events)@
                },
            },
    {
        if !self.is_owner(caller) {
            return Err(Error::Unauthorized);
        }
        if self.find_car(&car_id).is_some() {
            return Err(Error::CarAlreadyExists);
        }
        if !self.owner_record_exists(&owner_id) {
            return Err(Error::OwnerNotFound);
        }
        if hourly_rate == 0 {
            return Err(Error::InvalidRate);
        }
        self.cars.push(
            Car {
                car_id: car_id.clone(),
                owner_id: owner_id.clone(),
                available: true,
                hourly_rate,
            },
        );
        events.push(Event::CarAdded { car_id, owner_id });
        Ok(())
    }

    /// Whether deleting this car would fail, and how.
    pub open spec fn delete_car_outcome(self, car_id: Seq<char>, caller: Seq<char>) -> Option<
        Error,
    > {
        if !self.has_car(car_id) {
            Some(Error::CarNotFound)
        } else if self.car_at(car_id).owner_id@ != caller {
            Some(Error::Unauthorized)
        } else {
            None
        }
    }

    /// Removes a car: only the car's own owner may delete it (ownership
    /// of the resource, not mere registry membership). Outstanding
    /// bookings that reference the car are deliberately left in place.
    /// Emits `CarDeleted`.
    pub fn delete_car(&mut self, car_id: String, caller: &String, events: &mut Vec<Event>) -> (r:
        Result<(), Error>)
        requires
            old(self).wf(),
        ensures
            final(self).wf(),
            match r {
                Ok(_) => {
                    &&& old(self).delete_car_outcome(car_id@, caller@) is None
                    &&& final(self).cars@ == old(self).cars@.remove(old(self).car_index(car_id@))
                    &&& final(self).users@ == old(self).users@
                    &&& final(self).owners@ == old(self).owners@
                    &&& final(self).bookings@ == old(self).bookings@
                    &&& final(self).users_accounts@ == old(self).users_accounts@
                    &&& final(self).owners_accounts@ == old(self).owners_accounts@
                    &&& final(events)@ == old(events)@.push(Event::CarDeleted { car_id: car_id })
                },
                Err(e) => {
                    &&& old(self).delete_car_outcome(car_id@, caller@) == Some(e)
                    &&& *final(self) == *old(self)
                    &&& final(events)@ == old(events)@
                },
            },
    {
        let ci = match self.find_car(&car_id) {
            Some(i) => i,
            None => {
                return Err(Error::CarNotFound);
            },
        };
        if self.cars[ci].owner_id != *caller {
            return Err(Error::Unauthorized);
        }
        let ghost oldcars = self.cars@;
        self.cars.remove(ci);
        proof {
            oldcars.remove_ensures(ci as int);
            assert forall|i: int, j: int| 0 <= i < j < self.cars@.len() implies (
            #[trigger] self.cars@[i]).car_id@ != (#[trigger] self.cars@[j]).car_id@ by {
                let oi = if i < ci as int {
                    i
                } else {
                    i + 1
                };
                let oj = if j < ci as int {
                    j
                } else {
                    j + 1
                };
                assert(self.cars@[i] == oldcars[oi]);
                assert(self.cars@[j] == oldcars[oj]);
            }
        }
        events.push(Event::CarDeleted { car_id });
        Ok(())
    }

    /// Whether the car with this key is currently available; fails with
    /// `CarNotFound` when no such car is listed.
    pub fn is_available(&self, car_id: &String) -> (r: Result<bool, Error>)
        ensures
            match r {
                Ok(b) => self.has_car(car_id@) && (self.wf() ==> b == self.car_at(
                    car_id@,
                ).available),
                Err(e) => e == Error::CarNotFound && !self.has_car(car_id@),
            },
    {
        match self.find_car(car_id) {
            Some(i) => Ok(self.cars[i].available),
            None => Err(Error::CarNotFound),
        }
    }

    /// All cars listed by this owner, in listing order.
    pub fn list_owner_cars(&self, owner_id: String) -> (r: Vec<Car>)
        ensures
            r@ == self.cars@.filter(|c: Car| c.owner_id@ == owner_id@),
    {
        let mut r: Vec<Car> = Vec::new();
        let mut i: usize = 0;
        while i < self.cars.len()
            invariant
                i <= self.cars@.len(),
                r@ == self.cars@.subrange(0, i as int).filter(|c: Car| c.owner_id@ == owner_id@),
            decreases self.cars@.len() - i,
        {
            if self.cars[i].owner_id == owner_id {
                r.push(self.cars[i].clone());
            }
            proof {
                assert(self.cars@.subrange(0, i + 1) =~= self.cars@.subrange(0, i as int).push(
                    self.cars@[i as int],
                ));
                lemma_filter_push(
                    self.cars@.subrange(0, i as int),
                    self.cars@[i as int],
                    |c: Car| c.owner_id@ == owner_id@,
                );
            }
            i += 1;
        }
        proof {
            assert(self.cars@.subrange(0, self.cars@.len() as int) =~= self.cars@);
        }
        r
    }

    /// All currently available cars, in listing order.
    pub fn list_available_cars(&self) -> (r: Vec<Car>)
        ensures
            r@ == self.cars@.filter(|c: Car| c.available),
    {
        let mut r: Vec<Car> = Vec::new();
        let mut i: usize = 0;
        while i < self.cars.len()
            invariant
                i <= self.cars@.len(),
                r@ == self.cars@.subrange(0, i as int).filter(|c: Car| c.available),
            decreases self.cars@.len() - i,
        {
            if self.cars[i].available {
                r.push(self.cars[i].clone());
            }
            proof {
                assert(self.cars@.subrange(0, i + 1) =~= self.cars@.subrange(0, i as int).push(
                    self.cars@[i as int],
                ));
                lemma_filter_push(
                    self.cars@.subrange(0, i as int),
                    self.cars@[i as int],
                    |c: Car| c.available,
                );
            }
            i += 1;
        }
        proof {
            assert(self.cars@.subrange(0, self.cars@.len() as int) =~= self.cars@);
        }
        r
    }

    /// All live bookings made for this user, in insertion order.
    pub fn list_user_bookings(&self, user_id: String) -> (r: Vec<Booking>)
        ensures
            r@ == self.bookings@.filter(|b: Booking| b.user_id@ == user_id@),
    {
        let mut r: Vec<Booking> = Vec::new();
        let mut i: usize = 0;
        while i < self.bookings.len()
            invariant
                i <= self.bookings@.len(),
                r@ == self.bookings@.subrange(0, i as int).filter(
                    |b: Booking| b.user_id@ == user_id@,
                ),
            decreases self.bookings@.len() - i,
        {
            if self.bookings[i].user_id == user_id {
                r.push(self.bookings[i].clone());
            }
            proof {
                assert(self.bookings@.subrange(0, i + 1) =~= self.bookings@.subrange(
                    0,
                    i as int,
                ).push(self.bookings@[i as int]));
                lemma_filter_push(
                    self.bookings@.subrange(0, i as int),
                    self.bookings@[i as int],
                    |b: Booking| b.user_id@ == user_id@,
                );
            }
            i += 1;
        }
        proof {
            assert(self.bookings@.subrange(0, self.bookings@.len() as int) =~= self.bookings@);
        }
        r
    }

    /// Linear scan for the car with this key; under `wf` the returned
    /// index is the car's unique index.
    fn find_car(&self, car_id: &String) -> (r: Option<usize>)
        ensures
            match r {
                Some(i) => {
                    &&& i < self.cars@.len()
                    &&& self.cars@[i as int].car_id@ == car_id@
                    &&& self.has_car(car_id@)
                    &&& self.wf() ==> i as int == self.car_index(car_id@)
                },
                None => !self.has_car(car_id@),
            },
    {
        let mut i: usize = 0;
        while i < self.cars.len()
            invariant
                i <= self.cars@.len(),
                forall|j: int| 0 <= j < i ==> (#[trigger] self.cars@[j]).car_id@ != car_id@,
            decreases self.cars@.len() - i,
        {
            if self.cars[i].car_id == *car_id {
                proof {
                    if self.wf() {
                        let k = self.car_index(car_id@);
                        assert(0 <= k < self.cars@.len() && self.cars@[k].car_id@ == car_id@);
                        if k != i as int {
                            assert(self.cars@[k].car_id@ == self.cars@[i as int].car_id@);
                            assert(false);
                        }
                    }
                }
                return Some(i);
            }
            i += 1;
        }
        None
    }
}

/// Removing any element of a well-formed booking collection leaves it
/// well-formed.
proof fn lemma_bookings_wf_remove(bs: Seq<Booking>, k: int)
    requires
        bookings_wf(bs),
        0 <= k < bs.len(),
    ensures
        bookings_wf(bs.remove(k)),
{
    bs.remove_ensures(k);
    let r = bs.remove(k);
    assert forall|i: int, j: int| 0 <= i < j < r.len() implies (#[trigger] r[i]).booking_id@ != (
    #[trigger] r[j]).booking_id@ by {
        let oi = if i < k {
            i
        } else {
            i + 1
        };
        let oj = if j < k {
            j
        } else {
            j + 1
        };
        assert(r[i] == bs[oi]);
        assert(r[j] == bs[oj]);
    }
    assert forall|i: int| 0 <= i < r.len() implies (#[trigger] r[i]).booking_id@ == booking_key(
        r[i].car_id@,
        r[i].user_id@,
        r[i].start_time,
    ) && r[i].start_time < r[i].end_time by {
        let oi = if i < k {
            i
        } else {
            i + 1
        };
        assert(r[i] == bs[oi]);
    }
    assert forall|i: int, j: int|
        0 <= i < r.len() && 0 <= j < r.len() && i != j && (#[trigger] r[i]).car_id@ == (
        #[trigger] r[j]).car_id@ implies !intervals_overlap(
        r[i].start_time,
        r[i].end_time,
        r[j].start_time,
        r[j].end_time,
    ) by {
        let oi = if i < k {
            i
        } else {
            i + 1
        };
        let oj = if j < k {
            j
        } else {
            j + 1
        };
        assert(r[i] == bs[oi]);
        assert(r[j] == bs[oj]);
    }
}

/// Appending a fresh, non-overlapping, key-consistent booking keeps the
/// collection well-formed.
proof fn lemma_bookings_wf_push(bs: Seq<Booking>, b: Booking)
    requires
        bookings_wf(bs),
        b.start_time < b.end_time,
        b.booking_id@ == booking_key(b.car_id@, b.user_id@, b.start_time),
        forall|i: int| 0 <= i < bs.len() ==> (#[trigger] bs[i]).booking_id@ != b.booking_id@,
        forall|i: int|
            0 <= i < bs.len() ==> !booking_overlaps(
                #[trigger] bs[i],
                b.car_id@,
                b.start_time,
                b.end_time,
            ),
    ensures
        bookings_wf(bs.push(b)),
{
    let r = bs.push(b);
    assert forall|i: int, j: int| 0 <= i < j < r.len() implies (#[trigger] r[i]).booking_id@ != (
    #[trigger] r[j]).booking_id@ by {
        if j == bs.len() {
            assert(r[i] == bs[i]);
            assert(r[j] == b);
        } else {
            assert(r[i] == bs[i]);
            assert(r[j] == bs[j]);
        }
    }
    assert forall|i: int, j: int|
        0 <= i < r.len() && 0 <= j < r.len() && i != j && (#[trigger] r[i]).car_id@ == (
        #[trigger] r[j]).car_id@ implies !intervals_overlap(
        r[i].start_time,
        r[i].end_time,
        r[j].start_time,
        r[j].end_time,
    ) by {
        if i == bs.len() {
            assert(r[i] == b);
            assert(r[j] == bs[j]);
            assert(!booking_overlaps(bs[j], b.car_id@, b.start_time, b.end_time));
        } else if j == bs.len() {
            assert(r[i] == bs[i]);
            assert(r[j] == b);
            assert(!booking_overlaps(bs[i], b.car_id@, b.start_time, b.end_time));
        } else {
            assert(r[i] == bs[i]);
            assert(r[j] == bs[j]);
        }
    }
}

impl CarSharing {
    /// The rental fee of booking this car over this interval fits the
    /// ledger's arithmetic width (trivially true when the car does not
    /// exist or the interval is empty, since no fee is computed then).
    pub open spec fn booking_fee_fits(
        self,
        car_id: Seq<char>,
        start_time: u64,
        end_time: u64,
    ) -> bool {
        (self.has_car(car_id) && start_time < end_time) ==> rental_fee(
            self.car_at(car_id).hourly_rate,
            start_time,
            end_time,
        ) <= u128::MAX
    }

    /// Whether booking this car would fail, and how.
    pub open spec fn book_car_outcome(
        self,
        car_id: Seq<char>,
        user_id: Seq<char>,
        start_time: u64,
        end_time: u64,
        deposit: u128,
    ) -> Option<Error> {
        if !valid_identity(user_id) {
            Some(Error::InvalidIdentity)
        } else if !self.is_user_spec(user_id) {
            Some(Error::InvalidDriver)
        } else if !self.has_car(car_id) {
            Some(Error::CarNotFound)
        } else if start_time >= end_time {
            Some(Error::InvalidInterval)
        } else if !self.car_at(car_id).available {
            Some(Error::CarNotAvailable)
        } else if some_booking_overlaps(self.bookings@, car_id, start_time, end_time) {
            Some(Error::CarNotAvailable)
        } else if (deposit as int) < required_deposit(
            rental_fee(self.car_at(car_id).hourly_rate, start_time, end_time),
        ) {
            Some(Error::InsufficientDeposit)
        } else {
            None
        }
    }

    /// Books a car over `[start_time, end_time)` for a registered user.
    /// The single overlap predicate `start < b.end && end > b.start`
    /// governs every pairwise conflict (nested, partial, identical).
    /// The tendered deposit must reach nine tenths of the fee (divided
    /// first, then multiplied); the booking stores the tendered amount
    /// while the emitted `CarBooked` carries the computed minimum.
    pub fn book_car(
        &mut self,
        car_id: String,
        user_id: String,
        start_time: u64,
        end_time: u64,
        deposit: u128,
        events: &mut Vec<Event>,
    ) -> (r: Result<(), Error>)
        requires
            old(self).wf(),
            old(self).booking_fee_fits(car_id@, start_time, end_time),
        ensures
            final(self).wf(),
            match r {
                Ok(_) => {
                    &&& old(self).book_car_outcome(
                        car_id@,
                        user_id@,
                        start_time,
                        end_time,
                        deposit,
                    ) is None
                    &&& ({
                        let key = booking_key(car_id@, user_id@, start_time);
                        let b = final(self).bookings@.last();
                        &&& b.booking_id@ == key
                        &&& b.car_id == car_id
                        &&& b.user_id == user_id
                        &&& b.start_time == start_time
                        &&& b.end_time == end_time
                        &&& b.deposit == deposit
                        &&& final(self).bookings@ == if old(self).has_booking(key) {
                            old(self).bookings@.remove(old(self).booking_index(key)).push(b)
                        } else {
                            old(self).bookings@.push(b)
                        }
                    })
                    &&& final(self).users@ == old(self).users@
                    &&& final(self).owners@ == old(self).owners@
                    &&& final(self).cars@ == old(self).cars@
                    &&& final(self).users_accounts@ == old(self).users_accounts@
                    &&& final(self).owners_accounts@ == old(self).owners_accounts@
                    &&& final(events)@ == old(events)@.push(
                        Event::CarBooked {
                            car_id: car_id,
                            user_id: user_id,
                            start_time: start_time,
                            end_time: end_time,
                            deposit: (required_deposit(
                                rental_fee(
                                    old(self).car_at(car_id@).hourly_rate,
                                    start_time,
                                    end_time,
                                ),
                            ) as u128),
                        },
                    )
                },
                Err(e) => {
                    &&& old(self).book_car_outcome(
                        car_id@,
                        user_id@,
                        start_time,
                        end_time,
                        deposit,
                    ) == Some(e)
                    &&& *final(self) == *old(self)
                    &&& final(events)@ == old(events)@
                },
            },
    {
        if !check_identity(&user_id) {
            return Err(Error::InvalidIdentity);
        }
        if !self.is_user(&user_id) {
            return Err(Error::InvalidDriver);
        }
        let ci = match self.find_car(&car_id) {
            Some(i) => i,
            None => {
                return Err(Error::CarNotFound);
            },
        };
        if start_time >= end_time {
            return Err(Error::InvalidInterval);
        }
        if !self.cars[ci].available {
            return Err(Error::CarNotAvailable);
        }
        if self.overlap_exists(&car_id, start_time, end_time) {
            return Err(Error::CarNotAvailable);
        }
        let hours: u64 = (end_time - start_time) / NANOS_PER_HOUR;
        let fee: u128 = (hours as u128) * self.cars[ci].hourly_rate;
        let required: u128 = (fee / 10) * 9;
        if deposit < required {
            return Err(Error::InsufficientDeposit);
        }
        let booking_id = make_booking_id(&car_id, &user_id, start_time);
        let b = Booking {
            booking_id,
            car_id: car_id.clone(),
            user_id: user_id.clone(),
            start_time,
            end_time,
            deposit,
        };
        let ghost oldbs = self.bookings@;
        match self.find_booking(&b.booking_id) {
            Some(k) => {
                self.bookings.remove(k);
                proof {
                    lemma_bookings_wf_remove(oldbs, k as int);
                    oldbs.remove_ensures(k as int);
                    assert forall|i: int| 0 <= i < self.bookings@.len() implies (
                    #[trigger] self.bookings@[i]).booking_id@ != b.booking_id@ by {
                        let oi = if i < k as int {
                            i
                        } else {
                            i + 1
                        };
                        assert(self.bookings@[i] == oldbs[oi]);
                    }
                    assert forall|i: int| 0 <= i < self.bookings@.len() implies !booking_overlaps(
                        #[trigger] self.bookings@[i],
                        b.car_id@,
                        b.start_time,
                        b.end_time,
                    ) by {
                        let oi = if i < k as int {
                            i
                        } else {
                            i + 1
                        };
                        assert(self.bookings@[i] == oldbs[oi]);
                        assert(!booking_overlaps(oldbs[oi], car_id@, start_time, end_time));
                    }
                }
            },
            None => {},
        }
        proof {
            lemma_bookings_wf_push(self.bookings@, b);
        }
        self.bookings.push(b);
        events.push(
            Event::CarBooked { car_id, user_id, start_time, end_time, deposit: required },
        );
        Ok(())
    }

    /// Whether cancelling this booking would fail, and how.
    pub open spec fn cancel_booking_outcome(self, booking_id: Seq<char>) -> Option<Error> {
        if !self.has_booking(booking_id) {
            Some(Error::BookingNotFound)
        } else {
            None
        }
    }

    /// Cancels a booking by key. Any caller may cancel any booking; the
    /// entire recorded deposit is forfeited, and `BookingCancelled`
    /// carries the forfeited amount.
    pub fn cancel_booking(&mut self, booking_id: String, events: &mut Vec<Event>) -> (r: Result<
        (),
        Error,
    >)
        requires
            old(self).wf(),
        ensures
            final(self).wf(),
            match r {
                Ok(_) => {
                    &&& old(self).cancel_booking_outcome(booking_id@) is None
                    &&& ({
                        let k = old(self).booking_index(booking_id@);
                        let b = old(self).bookings@[k];
                        &&& final(self).bookings@ == old(self).bookings@.remove(k)
                        &&& final(events)@ == old(events)@.push(
                            Event::BookingCancelled {
                                booking_id: booking_id,
                                user_id: b.user_id,
                                deposit_retained: b.deposit,
                            },
                        )
                    })
                    &&& final(self).users@ == old(self).users@
                    &&& final(self).owners@ == old(self).owners@
                    &&& final(self).cars@ == old(self).cars@
                    &&& final(self).users_accounts@ == old(self).users_accounts@
                    &&& final(self).owners_accounts@ == old(self).owners_accounts@
                },
                Err(e) => {
                    &&& old(self).cancel_booking_outcome(booking_id@) == Some(e)
                    &&& *final(self) == *old(self)
                    &&& final(events)@ == old(events)@
                },
            },
    {
        let k = match self.find_booking(&booking_id) {
            Some(k) => k,
            None => {
                return Err(Error::BookingNotFound);
            },
        };
        let user_id = self.bookings[k].user_id.clone();
        let deposit_retained = self.bookings[k].deposit;
        let ghost oldbs = self.bookings@;
        self.bookings.remove(k);
        proof {
            lemma_bookings_wf_remove(oldbs, k as int);
        }
        events.push(Event::BookingCancelled { booking_id, user_id, deposit_retained });
        Ok(())
    }

    /// Linear scan for a booking intersecting `[start_time, end_time)`
    /// on the same car.
    fn overlap_exists(&self, car_id: &String, start_time: u64, end_time: u64) -> (r: bool)
        ensures
            r == some_booking_overlaps(self.bookings@, car_id@, start_time, end_time),
    {
        let mut i: usize = 0;
        while i < self.bookings.len()
            invariant
                i <= self.bookings@.len(),
                forall|j: int|
                    0 <= j < i ==> !booking_overlaps(
                        #[trigger] self.bookings@[j],
                        car_id@,
                        start_time,
                        end_time,
                    ),
            decreases self.bookings@.len() - i,
        {
            if self.bookings[i].car_id == *car_id && start_time < self.bookings[i].end_time
                && end_time > self.bookings[i].start_time {
                return true;
            }
            i += 1;
        }
        false
    }

    /// Linear scan for the booking with this key; under `wf` the
    /// returned index is the booking's unique index.
    fn find_booking(&self, booking_id: &String) -> (r: Option<usize>)
        ensures
            match r {
                Some(i) => {
                    &&& i < self.bookings@.len()
                    &&& self.bookings@[i as int].booking_id@ == booking_id@
                    &&& self.has_booking(booking_id@)
                    &&& self.wf() ==> i as int == self.booking_index(booking_id@)
                },
                None => !self.has_booking(booking_id@),
            },
    {
        let mut i: usize = 0;
        while i < self.bookings.len()
            invariant
                i <= self.bookings@.len(),
                forall|j: int| 0 <= j < i ==> (#[trigger] self.bookings@[j]).booking_id@ != booking_id@,
            decreases self.bookings@.len() - i,
        {
            if self.bookings[i].booking_id == *booking_id {
                proof {
                    if self.wf() {
                        let k = self.booking_index(booking_id@);
                        assert(0 <= k < self.bookings@.len() && self.bookings@[k].booking_id@
                            == booking_id@);
                        if k != i as int {
                            assert(self.bookings@[k].booking_id@
                                == self.bookings@[i as int].booking_id@);
                            assert(false);
                        }
                    }
                }
                return Some(i);
            }
            i += 1;
        }
        None
    }
}

/// A live booking for `car_id` whose `[start_time, end_time]` contains
/// `now`, inclusive on both ends. The return path deliberately uses
/// these boundary semantics, unlike the overlap test, which excludes
/// `end_time`.
pub open spec fn booking_in_window(b: Booking, car_id: Seq<char>, now: u64) -> bool {
    b.car_id@ == car_id && b.start_time <= now && now <= b.end_time
}

/// Some booking in `bs` for the car contains `now`.
pub open spec fn some_booking_in_window(bs: Seq<Booking>, car_id: Seq<char>, now: u64) -> bool {
    exists|i: int| 0 <= i < bs.len() && booking_in_window(#[trigger] bs[i], car_id, now)
}

impl CarSharing {
    /// The immediate-rental fee for this car over this many hours fits
    /// the ledger's arithmetic width.
    pub open spec fn rent_fee_fits(self, car_id: Seq<char>, duration: u32) -> bool {
        self.has_car(car_id) ==> (duration as int) * self.car_at(car_id).hourly_rate <= u128::MAX
    }

    /// Whether renting this car right now would fail, and how. The tail
    /// delegates to the booking outcome over `[now, now + hours)`: an
    /// immediate rental inherits the overlap check, and a zero duration
    /// is rejected there as an empty interval.
    pub open spec fn rent_car_outcome(
        self,
        car_id: Seq<char>,
        user_id: Seq<char>,
        duration: u32,
        now: u64,
        attached_payment: u128,
    ) -> Option<Error> {
        if !valid_identity(user_id) {
            Some(Error::InvalidIdentity)
        } else if !self.is_user_spec(user_id) {
            Some(Error::InvalidDriver)
        } else if !self.has_car(car_id) {
            Some(Error::CarNotFound)
        } else if (attached_payment as int) < (duration as int) * self.car_at(
            car_id,
        ).hourly_rate {
            Some(Error::InsufficientPayment)
        } else if !self.car_at(car_id).available {
            Some(Error::CarNotAvailable)
        } else {
            self.book_car_outcome(
                car_id,
                user_id,
                now,
                (now + duration * NANOS_PER_HOUR) as u64,
                attached_payment,
            )
        }
    }

    /// Rents a car immediately: requires the full fee attached (not the
    /// ten-percent deposit rule of an advance booking), delegates to
    /// `book_car` for interval and overlap validation with the whole
    /// attached payment stored as the booking's deposit, then marks the
    /// car unavailable and emits `CarRented` after `CarBooked`.
    pub fn rent_car(
        &mut self,
        car_id: String,
        user_id: String,
        duration: u32,
        now: u64,
        attached_payment: u128,
        events: &mut Vec<Event>,
    ) -> (r: Result<(), Error>)
        requires
            old(self).wf(),
            now + duration * NANOS_PER_HOUR <= u64::MAX,
            old(self).rent_fee_fits(car_id@, duration),
        ensures
            final(self).wf(),
            match r {
                Ok(_) => {
                    &&& old(self).rent_car_outcome(
                        car_id@,
                        user_id@,
                        duration,
                        now,
                        attached_payment,
                    ) is None
                    &&& ({
                        let key = booking_key(car_id@, user_id@, now);
                        let b = final(self).bookings@.last();
                        &&& b.booking_id@ == key
                        &&& b.car_id == car_id
                        &&& b.user_id == user_id
                        &&& b.start_time == now
                        &&& b.end_time == now + duration * NANOS_PER_HOUR
                        &&& b.deposit == attached_payment
                        &&& final(self).bookings@ == if old(self).has_booking(key) {
                            old(self).bookings@.remove(old(self).booking_index(key)).push(b)
                        } else {
                            old(self).bookings@.push(b)
                        }
                    })
                    &&& ({
                        let ci = old(self).car_index(car_id@);
                        let c = old(self).cars@[ci];
                        final(self).cars@ == old(self).cars@.update(
                            ci,
                            Car {
                                car_id: c.car_id,
                                owner_id: c.owner_id,
                                available: false,
                                hourly_rate: c.hourly_rate,
                            },
                        )
                    })
                    &&& final(self).users@ == old(self).users@
                    &&& final(self).owners@ == old(self).owners@
                    &&& final(self).users_accounts@ == old(self).users_accounts@
                    &&& final(self).owners_accounts@ == old(self).owners_accounts@
                    &&& final(events)@ == old(events)@.push(
                        Event::CarBooked {
                            car_id: car_id,
                            user_id: user_id,
                            start_time: now,
                            end_time: (now + duration * NANOS_PER_HOUR) as u64,
                            deposit: (required_deposit(
                                rental_fee(
                                    old(self).car_at(car_id@).hourly_rate,
                                    now,
                                    (now + duration * NANOS_PER_HOUR) as u64,
                                ),
                            ) as u128),
                        },
                    ).push(
                        Event::CarRented { car_id: car_id, user_id: user_id, duration: duration },
                    )
                },
                Err(e) => {
                    &&& old(self).rent_car_outcome(
                        car_id@,
                        user_id@,
                        duration,
                        now,
                        attached_payment,
                    ) == Some(e)
                    &&& *final(self) == *old(self)
                    &&& final(events)@ == old(events)@
                },
            },
    {
        if !check_identity(&user_id) {
            return Err(Error::InvalidIdentity);
        }
        if !self.is_user(&user_id) {
            return Err(Error::InvalidDriver);
        }
        let start_time = now;
        let end_time = now + (duration as u64) * NANOS_PER_HOUR;
        let ci = match self.find_car(&car_id) {
            Some(i) => i,
            None => {
                return Err(Error::CarNotFound);
            },
        };
        let required_payment: u128 = (duration as u128) * self.cars[ci].hourly_rate;
        if attached_payment < required_payment {
            return Err(Error::InsufficientPayment);
        }
        if !self.cars[ci].available {
            return Err(Error::CarNotAvailable);
        }
        proof {
            if start_time < end_time {
                vstd::arithmetic::div_mod::lemma_div_by_multiple(
                    duration as int,
                    NANOS_PER_HOUR as int,
                );
                assert(rental_hours(start_time, end_time) == duration as int);
            }
        }
        match self.book_car(
            car_id.clone(),
            user_id.clone(),
            start_time,
            end_time,
            attached_payment,
            events,
        ) {
            Ok(_) => {},
            Err(e) => {
                return Err(e);
            },
        }
        let c = Car {
            car_id: self.cars[ci].car_id.clone(),
            owner_id: self.cars[ci].owner_id.clone(),
            available: false,
            hourly_rate: self.cars[ci].hourly_rate,
        };
        let ghost oldcars = self.cars@;
        self.cars[ci] = c;
        proof {
            assert forall|i: int, j: int| 0 <= i < j < self.cars@.len() implies (
            #[trigger] self.cars@[i]).car_id@ != (#[trigger] self.cars@[j]).car_id@ by {
                assert(oldcars[i].car_id@ != oldcars[j].car_id@);
                assert(self.cars@[i].car_id@ == oldcars[i].car_id@);
                assert(self.cars@[j].car_id@ == oldcars[j].car_id@);
            }
        }
        events.push(Event::CarRented { car_id, user_id, duration });
        Ok(())
    }

    /// Whether returning this car would fail, and how.
    pub open spec fn return_car_outcome(self, car_id: Seq<char>) -> Option<Error> {
        if !self.has_car(car_id) {
            Some(Error::CarNotFound)
        } else {
            None
        }
    }

    /// Returns a car: marks it available unconditionally, then removes
    /// the first live booking for it whose inclusive window contains
    /// `now`, if any, emitting `BookingCancelled` with the recorded
    /// deposit as retained (the cancellation event is reused for a
    /// normal return). Emits `CarReturned` afterwards in every case.
    pub fn return_car(&mut self, car_id: String, now: u64, events: &mut Vec<Event>) -> (r: Result<
        (),
        Error,
    >)
        requires
            old(self).wf(),
        ensures
            final(self).wf(),
            match r {
                Ok(_) => {
                    &&& old(self).return_car_outcome(car_id@) is None
                    &&& ({
                        let ci = old(self).car_index(car_id@);
                        let c = old(self).cars@[ci];
                        final(self).cars@ == old(self).cars@.update(
                            ci,
                            Car {
                                car_id: c.car_id,
                                owner_id: c.owner_id,
                                available: true,
                                hourly_rate: c.hourly_rate,
                            },
                        )
                    })
                    &&& if some_booking_in_window(old(self).bookings@, car_id@, now) {
                        exists|k: int|
                            {
                                &&& 0 <= k < old(self).bookings@.len()
                                &&& booking_in_window(#[trigger] old(self).bookings@[k], car_id@, now)
                                &&& forall|j: int|
                                    0 <= j < k ==> !booking_in_window(
                                        #[trigger] old(self).bookings@[j],
                                        car_id@,
                                        now,
                                    )
                                &&& final(self).bookings@ == old(self).bookings@.remove(k)
                                &&& final(events)@ == old(events)@.push(
                                    Event::BookingCancelled {
                                        booking_id: old(self).bookings@[k].booking_id,
                                        user_id: old(self).bookings@[k].user_id,
                                        deposit_retained: old(self).bookings@[k].deposit,
                                    },
                                ).push(Event::CarReturned { car_id: car_id })
                            }
                    } else {
                        &&& final(self).bookings@ == old(self).bookings@
                        &&& final(events)@ == old(events)@.push(
                            Event::CarReturned { car_id: car_id },
                        )
                    }
                    &&& final(self).users@ == old(self).users@
                    &&& final(self).owners@ == old(self).owners@
                    &&& final(self).users_accounts@ == old(self).users_accounts@
                    &&& final(self).owners_accounts@ == old(self).owners_accounts@
                },
                Err(e) => {
                    &&& old(self).return_car_outcome(car_id@) == Some(e)
                    &&& *final(self) == *old(self)
                    &&& final(events)@ == old(events)@
                },
            },
    {
        let ci = match self.find_car(&car_id) {
            Some(i) => i,
            None => {
                return Err(Error::CarNotFound);
            },
        };
        let c = Car {
            car_id: self.cars[ci].car_id.clone(),
            owner_id: self.cars[ci].owner_id.clone(),
            available: true,
            hourly_rate: self.cars[ci].hourly_rate,
        };
        let ghost oldcars = self.cars@;
        self.cars[ci] = c;
        proof {
            assert forall|i: int, j: int| 0 <= i < j < self.cars@.len() implies (
            #[trigger] self.cars@[i]).car_id@ != (#[trigger] self.cars@[j]).car_id@ by {
                assert(oldcars[i].car_id@ != oldcars[j].car_id@);
                assert(self.cars@[i].car_id@ == oldcars[i].car_id@);
                assert(self.cars@[j].car_id@ == oldcars[j].car_id@);
            }
        }
        match self.find_first_in_window(&car_id, now) {
            Some(k) => {
                let booking_id = self.bookings[k].booking_id.clone();
                let user_id = self.bookings[k].user_id.clone();
                let deposit_retained = self.bookings[k].deposit;
                let ghost oldbs = self.bookings@;
                self.bookings.remove(k);
                proof {
                    lemma_bookings_wf_remove(oldbs, k as int);
                }
                events.push(
                    Event::BookingCancelled { booking_id, user_id, deposit_retained },
                );
            },
            None => {},
        }
        events.push(Event::CarReturned { car_id });
        Ok(())
    }

    /// Linear scan for the first booking of the car whose inclusive
    /// window contains `now`.
    fn find_first_in_window(&self, car_id: &String, now: u64) -> (r: Option<usize>)
        ensures
            match r {
                Some(k) => {
                    &&& k < self.bookings@.len()
                    &&& booking_in_window(self.bookings@[k as int], car_id@, now)
                    &&& forall|j: int|
                        0 <= j < k ==> !booking_in_window(
                            #[trigger] self.bookings@[j],
                            car_id@,
                            now,
                        )
                },
                None => !some_booking_in_window(self.bookings@, car_id@, now),
            },
    {
        let mut i: usize = 0;
        while i < self.bookings.len()
            invariant
                i <= self.bookings@.len(),
                forall|j: int|
                    0 <= j < i ==> !booking_in_window(#[trigger] self.bookings@[j], car_id@, now),
            decreases self.bookings@.len() - i,
        {
            if self.bookings[i].car_id == *car_id && self.bookings[i].start_time <= now && now
                <= self.bookings[i].end_time {
                return Some(i);
            }
            i += 1;
        }
        None
    }
}

/// Linear scan for an identity in a registry of identity strings.
fn contains_identity(v: &Vec<String>, account_id: &String) -> (r: bool)
    ensures
        r == contains_id(v@, account_id@),
{
    let mut i: usize = 0;
    while i < v.len()
        invariant
            i <= v@.len(),
            forall|j: int| 0 <= j < i ==> (#[trigger] v@[j])@ != account_id@,
        decreases v@.len() - i,
    {
        if v[i] == *account_id {
            return true;
        }
        i += 1;
    }
    false
}

} // verus!
