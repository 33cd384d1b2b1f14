use car_sharing::{CarSharing, Error, Event};

const HOUR_NS: u64 = 3600000000000;

fn fleet(rate: u128) -> (CarSharing, Vec<Event>) {
    let mut contract = CarSharing::init();
    let mut events = Vec::new();
    contract
        .create_owner_account("o1".to_string(), "Olive".to_string(), &mut events)
        .unwrap();
    contract
        .create_user_account("u1".to_string(), "Uma".to_string(), "DL-1".to_string(), &mut events)
        .unwrap();
    contract
        .add_car("c1".to_string(), "o1".to_string(), rate, &"o1".to_string(), &mut events)
        .unwrap();
    (contract, events)
}

fn book(
    contract: &mut CarSharing,
    events: &mut Vec<Event>,
    start: u64,
    end: u64,
    deposit: u128,
) -> Result<(), Error> {
    contract.book_car("c1".to_string(), "u1".to_string(), start, end, deposit, events)
}

#[test]
fn scenario_registration_and_listing() {
    let (contract, _events) = fleet(100);
    assert!(contract.is_owner(&"o1".to_string()));
    assert!(contract.is_user(&"u1".to_string()));
    assert_eq!(contract.is_available(&"c1".to_string()), Ok(true));
}

#[test]
fn deposit_formula_divides_before_multiplying() {
    // fee = 1000: the mandatory deposit is (1000 / 10) * 9 = 900.
    let (mut contract, mut events) = fleet(1000);
    assert_eq!(book(&mut contract, &mut events, 0, HOUR_NS, 899), Err(Error::InsufficientDeposit));
    assert_eq!(book(&mut contract, &mut events, 0, HOUR_NS, 900), Ok(()));

    // fee = 1005: (1005 / 10) * 9 = 900 as well, not 904.
    let (mut contract, mut events) = fleet(1005);
    assert_eq!(book(&mut contract, &mut events, 0, HOUR_NS, 899), Err(Error::InsufficientDeposit));
    assert_eq!(book(&mut contract, &mut events, 0, HOUR_NS, 900), Ok(()));
}

#[test]
fn fractional_hours_are_not_billed() {
    // 59 minutes round down to zero billable hours: any deposit passes.
    let (mut contract, mut events) = fleet(1000);
    assert_eq!(book(&mut contract, &mut events, 0, HOUR_NS - 1, 0), Ok(()));
}

#[test]
fn overlapping_bookings_are_rejected() {
    let (mut contract, mut events) = fleet(100);
    assert_eq!(book(&mut contract, &mut events, 1000, 1000 + HOUR_NS, 90), Ok(()));

    // Identical, nested, and partially overlapping intervals all fail.
    let taken = 1000;
    let cases = [
        (taken, taken + HOUR_NS),
        (taken + 1, taken + HOUR_NS - 1),
        (taken - 1, taken + 1),
        (taken + HOUR_NS - 1, taken + 2 * HOUR_NS),
    ];
    for (s, e) in cases {
        assert_eq!(
            book(&mut contract, &mut events, s, e, 1000000),
            Err(Error::CarNotAvailable),
            "interval [{}, {}) should conflict",
            s,
            e
        );
    }
    assert_eq!(contract.bookings.len(), 1);

    // Closed-open semantics: an interval starting exactly at the end of
    // the taken one does not conflict.
    assert_eq!(book(&mut contract, &mut events, taken + HOUR_NS, taken + 2 * HOUR_NS, 90), Ok(()));
}

#[test]
fn insufficient_payment_leaves_state_unchanged() {
    let (mut contract, mut events) = fleet(100);
    let before_events = events.len();
    let result = contract.rent_car("c1".to_string(), "u1".to_string(), 1, 0, 99, &mut events);
    assert_eq!(result, Err(Error::InsufficientPayment));
    assert_eq!(contract.is_available(&"c1".to_string()), Ok(true));
    assert_eq!(contract.bookings.len(), 0);
    assert_eq!(events.len(), before_events);

    // The same invalid call again: same error, still no state change.
    let result = contract.rent_car("c1".to_string(), "u1".to_string(), 1, 0, 99, &mut events);
    assert_eq!(result, Err(Error::InsufficientPayment));
    assert_eq!(contract.bookings.len(), 0);
}

#[test]
fn failed_calls_are_idempotent() {
    let (mut contract, mut events) = fleet(100);

    // Unauthorized caller, twice.
    let r1 = contract.add_car("c2".to_string(), "o1".to_string(), 5, &"u1".to_string(), &mut events);
    let r2 = contract.add_car("c2".to_string(), "o1".to_string(), 5, &"u1".to_string(), &mut events);
    assert_eq!(r1, Err(Error::Unauthorized));
    assert_eq!(r2, Err(Error::Unauthorized));
    assert_eq!(contract.cars.len(), 1);

    // Unknown car, twice.
    let r1 = contract.return_car("ghost".to_string(), 0, &mut events);
    let r2 = contract.return_car("ghost".to_string(), 0, &mut events);
    assert_eq!(r1, Err(Error::CarNotFound));
    assert_eq!(r2, Err(Error::CarNotFound));

    // Zero rate, twice.
    let r1 = contract.add_car("c2".to_string(), "o1".to_string(), 0, &"o1".to_string(), &mut events);
    let r2 = contract.add_car("c2".to_string(), "o1".to_string(), 0, &"o1".to_string(), &mut events);
    assert_eq!(r1, Err(Error::InvalidRate));
    assert_eq!(r2, Err(Error::InvalidRate));

    // Unregistered driver, twice.
    let r1 = book(&mut contract, &mut events, 0, HOUR_NS, 90);
    let mut contract2 = contract;
    let r2 = contract2.book_car("c1".to_string(), "u9".to_string(), 0, HOUR_NS, 90, &mut events);
    assert_eq!(r1, Ok(()));
    assert_eq!(r2, Err(Error::InvalidDriver));
    let r3 = contract2.book_car("c1".to_string(), "u9".to_string(), 0, HOUR_NS, 90, &mut events);
    assert_eq!(r3, Err(Error::InvalidDriver));
}

#[test]
fn cancel_booking_forfeits_deposit_once() {
    let (mut contract, mut events) = fleet(100);
    // Tender more than the mandatory 90: the booking stores the
    // tendered amount, and cancellation forfeits all of it.
    assert_eq!(book(&mut contract, &mut events, 0, HOUR_NS, 95), Ok(()));
    let booking_id = contract.bookings[0].booking_id.clone();
    assert_eq!(contract.bookings[0].deposit, 95);

    let result = contract.cancel_booking(booking_id.clone(), &mut events);
    assert_eq!(result, Ok(()));
    assert_eq!(contract.bookings.len(), 0);
    assert_eq!(
        events.last().unwrap(),
        &Event::BookingCancelled {
            booking_id: booking_id.clone(),
            user_id: "u1".to_string(),
            deposit_retained: 95,
        }
    );

    // Cancelling the same booking again fails, twice, with no change.
    assert_eq!(contract.cancel_booking(booking_id.clone(), &mut events), Err(Error::BookingNotFound));
    assert_eq!(contract.cancel_booking(booking_id, &mut events), Err(Error::BookingNotFound));
    assert_eq!(contract.bookings.len(), 0);
}

#[test]
fn return_without_matching_booking_still_frees_car() {
    let (mut contract, mut events) = fleet(100);
    // A future booking whose window does not contain `now`.
    assert_eq!(book(&mut contract, &mut events, 10 * HOUR_NS, 11 * HOUR_NS, 90), Ok(()));
    let before = events.len();

    let result = contract.return_car("c1".to_string(), 0, &mut events);
    assert_eq!(result, Ok(()));
    assert_eq!(contract.is_available(&"c1".to_string()), Ok(true));
    assert_eq!(contract.bookings.len(), 1, "the out-of-window booking must survive");
    assert_eq!(events.len(), before + 1, "no BookingCancelled may be emitted");
    assert_eq!(events.last().unwrap(), &Event::CarReturned { car_id: "c1".to_string() });
}

#[test]
fn return_removes_in_window_booking() {
    let (mut contract, mut events) = fleet(100);
    contract
        .rent_car("c1".to_string(), "u1".to_string(), 2, 1000, 200, &mut events)
        .unwrap();
    assert_eq!(contract.is_available(&"c1".to_string()), Ok(false));
    assert_eq!(contract.bookings.len(), 1);

    // The inclusive window [1000, 1000 + 2h] contains the return time.
    let result = contract.return_car("c1".to_string(), 1000 + 2 * HOUR_NS, &mut events);
    assert_eq!(result, Ok(()));
    assert_eq!(contract.is_available(&"c1".to_string()), Ok(true));
    assert_eq!(contract.bookings.len(), 0);
    let n = events.len();
    assert_eq!(events[n - 1], Event::CarReturned { car_id: "c1".to_string() });
    assert!(matches!(events[n - 2], Event::BookingCancelled { deposit_retained: 200, .. }));
}

#[test]
fn rent_car_emits_booked_then_rented() {
    let (mut contract, mut events) = fleet(100);
    contract
        .rent_car("c1".to_string(), "u1".to_string(), 3, 0, 300, &mut events)
        .unwrap();
    let n = events.len();
    assert_eq!(
        events[n - 2],
        Event::CarBooked {
            car_id: "c1".to_string(),
            user_id: "u1".to_string(),
            start_time: 0,
            end_time: 3 * HOUR_NS,
            // The event carries the computed minimum, not the payment.
            deposit: (300 / 10) * 9,
        }
    );
    assert_eq!(
        events[n - 1],
        Event::CarRented { car_id: "c1".to_string(), user_id: "u1".to_string(), duration: 3 }
    );
}

#[test]
fn rent_with_zero_duration_is_an_empty_interval() {
    let (mut contract, mut events) = fleet(100);
    let result = contract.rent_car("c1".to_string(), "u1".to_string(), 0, 50, 0, &mut events);
    assert_eq!(result, Err(Error::InvalidInterval));
    assert_eq!(contract.is_available(&"c1".to_string()), Ok(true));
    assert_eq!(contract.bookings.len(), 0);
}

#[test]
fn booking_id_concatenates_car_user_and_start() {
    let (mut contract, mut events) = fleet(100);
    assert_eq!(book(&mut contract, &mut events, 5, 5 + HOUR_NS, 90), Ok(()));
    assert_eq!(contract.bookings[0].booking_id, "c1-u1-5");

    assert_eq!(
        book(&mut contract, &mut events, 12345678901234, 12345678901234 + HOUR_NS, 90),
        Ok(())
    );
    assert_eq!(contract.bookings[1].booking_id, "c1-u1-12345678901234");

    // Cancelling through a key built elsewhere reaches the booking.
    assert_eq!(contract.cancel_booking("c1-u1-5".to_string(), &mut events), Ok(()));
    assert_eq!(contract.bookings.len(), 1);
}

#[test]
fn identity_syntax_is_enforced() {
    let mut contract = CarSharing::init();
    let mut events = Vec::new();
    let too_long = "a".repeat(65);
    let invalid = [
        "A1",         // uppercase
        "a",          // too short
        "a..b",       // redundant separator
        "-ab",        // leading separator
        "ab-",        // trailing separator
        "a b",        // forbidden character
        too_long.as_str(),
    ];
    for id in invalid {
        assert_eq!(
            contract.create_owner_account(id.to_string(), "n".to_string(), &mut events),
            Err(Error::InvalidIdentity),
            "{:?} should be rejected",
            id
        );
        assert_eq!(
            contract.create_user_account(id.to_string(), "n".to_string(), "dl".to_string(), &mut events),
            Err(Error::InvalidIdentity),
            "{:?} should be rejected",
            id
        );
    }
    assert!(contract.owners.is_empty());
    assert!(contract.users.is_empty());

    let valid = ["ab", "a-b_c.d9", "alice.near", "sub.account-1_x"];
    for id in valid {
        assert_eq!(
            contract.create_owner_account(id.to_string(), "n".to_string(), &mut events),
            Ok(()),
            "{:?} should be accepted",
            id
        );
    }
}

#[test]
fn round_trip_queries_reflect_each_mutation() {
    let (mut contract, mut events) = fleet(100);

    // add_car -> listed exactly once for its owner.
    contract
        .add_car("c2".to_string(), "o1".to_string(), 7, &"o1".to_string(), &mut events)
        .unwrap();
    let cars = contract.list_owner_cars("o1".to_string());
    assert_eq!(cars.iter().filter(|c| c.car_id == "c2").count(), 1);
    assert_eq!(cars.len(), 2);

    // book_car -> listed exactly once for its user.
    assert_eq!(book(&mut contract, &mut events, 0, HOUR_NS, 90), Ok(()));
    let bookings = contract.list_user_bookings("u1".to_string());
    assert_eq!(bookings.len(), 1);
    assert_eq!(bookings[0].booking_id, "c1-u1-0");
    assert_eq!(bookings[0].deposit, 90);

    // rent_car -> no longer among the available cars.
    contract
        .rent_car("c2".to_string(), "u1".to_string(), 1, 0, 7, &mut events)
        .unwrap();
    let available = contract.list_available_cars();
    assert_eq!(available.iter().filter(|c| c.car_id == "c2").count(), 0);
    assert_eq!(available.iter().filter(|c| c.car_id == "c1").count(), 1);

    // return_car -> available again.
    contract.return_car("c2".to_string(), 0, &mut events).unwrap();
    let available = contract.list_available_cars();
    assert_eq!(available.iter().filter(|c| c.car_id == "c2").count(), 1);

    // cancel_booking -> no longer listed for its user.
    contract.cancel_booking("c1-u1-0".to_string(), &mut events).unwrap();
    assert_eq!(
        contract.list_user_bookings("u1".to_string()).iter().filter(|b| b.booking_id == "c1-u1-0").count(),
        0
    );

    // delete_car -> no longer listed for its owner.
    contract.delete_car("c2".to_string(), &"o1".to_string(), &mut events).unwrap();
    let cars = contract.list_owner_cars("o1".to_string());
    assert_eq!(cars.iter().filter(|c| c.car_id == "c2").count(), 0);
}

#[test]
fn colliding_derived_keys_replace_like_a_map() {
    // Two different (car, user, start) triples can concatenate to the
    // same derived key when the ids themselves contain '-'. The ledger
    // keeps keys unique by replacing, as a keyed map insert would.
    let (mut contract, mut events) = fleet(100);
    contract
        .add_car("a-b".to_string(), "o1".to_string(), 100, &"o1".to_string(), &mut events)
        .unwrap();
    contract
        .add_car("ab".to_string(), "o1".to_string(), 100, &"o1".to_string(), &mut events)
        .unwrap();
    contract
        .create_user_account("cc".to_string(), "n".to_string(), "d".to_string(), &mut events)
        .unwrap();
    contract
        .create_user_account("b-cc".to_string(), "n".to_string(), "d".to_string(), &mut events)
        .unwrap();

    contract
        .book_car("a-b".to_string(), "cc".to_string(), 0, HOUR_NS, 90, &mut events)
        .unwrap();
    contract
        .book_car("ab".to_string(), "b-cc".to_string(), 0, HOUR_NS, 90, &mut events)
        .unwrap();
    // These two keys merely look alike; they differ and both survive.
    assert_eq!(contract.bookings[0].booking_id, "a-b-cc-0");
    assert_eq!(contract.bookings[1].booking_id, "ab-b-cc-0");
    assert_eq!(contract.bookings.len(), 2);

    // A genuine collision: car "a" with user "b-cc" yields the same key
    // as car "a-b" with user "cc".
    contract
        .add_car("aa".to_string(), "o1".to_string(), 100, &"o1".to_string(), &mut events)
        .unwrap();
    contract
        .create_user_account("b-dd".to_string(), "n".to_string(), "d".to_string(), &mut events)
        .unwrap();
    contract
        .add_car("aa-b".to_string(), "o1".to_string(), 100, &"o1".to_string(), &mut events)
        .unwrap();
    contract
        .create_user_account("dd".to_string(), "n".to_string(), "d".to_string(), &mut events)
        .unwrap();
    contract
        .book_car("aa-b".to_string(), "dd".to_string(), 0, HOUR_NS, 90, &mut events)
        .unwrap();
    let before = contract.bookings.len();
    contract
        .book_car("aa".to_string(), "b-dd".to_string(), 0, HOUR_NS, 90, &mut events)
        .unwrap();
    assert_eq!(contract.bookings.len(), before, "the colliding key must replace, not duplicate");
    let survivor = contract.bookings.iter().find(|b| b.booking_id == "aa-b-dd-0").unwrap();
    assert_eq!(survivor.car_id, "aa");
    assert_eq!(survivor.user_id, "b-dd");
}

#[test]
fn delete_car_requires_the_cars_own_owner() {
    let (mut contract, mut events) = fleet(100);
    contract
        .create_owner_account("o2".to_string(), "Oscar".to_string(), &mut events)
        .unwrap();
    // o2 is a registered owner but does not own c1: the deletion policy
    // is resource ownership, not registry membership.
    assert_eq!(
        contract.delete_car("c1".to_string(), &"o2".to_string(), &mut events),
        Err(Error::Unauthorized)
    );
    assert_eq!(
        contract.delete_car("c1".to_string(), &"o1".to_string(), &mut events),
        Ok(())
    );
}

#[test]
fn delete_car_leaves_bookings_in_place() {
    let (mut contract, mut events) = fleet(100);
    assert_eq!(book(&mut contract, &mut events, 0, HOUR_NS, 90), Ok(()));
    contract.delete_car("c1".to_string(), &"o1".to_string(), &mut events).unwrap();
    assert_eq!(contract.bookings.len(), 1, "deletion must not cascade to bookings");
}

#[test]
fn error_messages_name_each_kind() {
    assert_eq!(Error::CarNotFound.message(), "Car not found");
    assert_eq!(Error::InsufficientDeposit.message(), "Insufficient deposit");
    assert_eq!(Error::Unauthorized.message(), "Unauthorized");
    assert_eq!(Error::InvalidIdentity.message(), "Invalid identity");
}

#[test]
fn error_cases_cover_every_kind() {
    let (mut contract, mut events) = fleet(100);

    assert_eq!(
        contract.create_owner_account("o1".to_string(), "x".to_string(), &mut events),
        Err(Error::OwnerAlreadyExists)
    );
    assert_eq!(
        contract.create_user_account("u1".to_string(), "x".to_string(), "d".to_string(), &mut events),
        Err(Error::UserAlreadyExists)
    );
    assert_eq!(
        contract.add_car("c1".to_string(), "o1".to_string(), 1, &"o1".to_string(), &mut events),
        Err(Error::CarAlreadyExists)
    );
    assert_eq!(
        contract.add_car("c9".to_string(), "o9".to_string(), 1, &"o1".to_string(), &mut events),
        Err(Error::OwnerNotFound)
    );
    assert_eq!(
        contract.book_car("c9".to_string(), "u1".to_string(), 0, 1, 0, &mut events),
        Err(Error::CarNotFound)
    );
    assert_eq!(
        contract.book_car("c1".to_string(), "u1".to_string(), 5, 5, 0, &mut events),
        Err(Error::InvalidInterval)
    );
    assert_eq!(
        contract.book_car("c1".to_string(), "Bad Id".to_string(), 0, 1, 0, &mut events),
        Err(Error::InvalidIdentity)
    );
    assert_eq!(
        contract.cancel_booking("nope".to_string(), &mut events),
        Err(Error::BookingNotFound)
    );
}
