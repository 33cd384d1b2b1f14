use vstd::prelude::*;

use crate::data::{Booking, Car, Owner, User};
use crate::error::Error;
use crate::ledger::lemma_filter_push;
use crate::ledger::CarSharing;

verus! {

/// Filtering a sequence none of whose elements the predicate accepts
/// yields the empty sequence.
proof fn lemma_filter_none<A>(s: Seq<A>, pred: spec_fn(A) -> bool)
    requires
        forall|i: int| 0 <= i < s.len() ==> !pred(#[trigger] s[i]),
    ensures
        s.filter(pred) == Seq::<A>::empty(),
    decreases s.len(),
{
    reveal(Seq::filter);
    if s.len() != 0 {
        lemma_filter_none(s.drop_last(), pred);
    }
}

/// Law: a failed registration changes nothing, so repeating it from
/// the state it left behind fails with the same error. Each operation's
/// contract supplies the two premises: on `Err` the ledger is unchanged
/// and the error equals the operation's outcome on the pre-state.
pub proof fn lemma_failed_create_owner_repeats(
    pre: CarSharing,
    post: CarSharing,
    owner_id: Seq<char>,
    e: Error,
)
    requires
        pre.create_owner_outcome(owner_id) == Some(e),
        post == pre,
    ensures
        post.create_owner_outcome(owner_id) == Some(e),
{
}

/// Law: a failed user registration repeats identically (see
/// `lemma_failed_create_owner_repeats`).
pub proof fn lemma_failed_create_user_repeats(
    pre: CarSharing,
    post: CarSharing,
    user_id: Seq<char>,
    e: Error,
)
    requires
        pre.create_user_outcome(user_id) == Some(e),
        post == pre,
    ensures
        post.create_user_outcome(user_id) == Some(e),
{
}

/// Law: a failed `add_car` repeats identically.
pub proof fn lemma_failed_add_car_repeats(
    pre: CarSharing,
    post: CarSharing,
    car_id: Seq<char>,
    owner_id: Seq<char>,
    hourly_rate: u128,
    caller: Seq<char>,
    e: Error,
)
    requires
        pre.add_car_outcome(car_id, owner_id, hourly_rate, caller) == Some(e),
        post == pre,
    ensures
        post.add_car_outcome(car_id, owner_id, hourly_rate, caller) == Some(e),
{
}

/// Law: a failed `delete_car` repeats identically.
pub proof fn lemma_failed_delete_car_repeats(
    pre: CarSharing,
    post: CarSharing,
    car_id: Seq<char>,
    caller: Seq<char>,
    e: Error,
)
    requires
        pre.delete_car_outcome(car_id, caller) == Some(e),
        post == pre,
    ensures
        post.delete_car_outcome(car_id, caller) == Some(e),
{
}

/// Law: a failed `book_car` repeats identically.
pub proof fn lemma_failed_book_car_repeats(
    pre: CarSharing,
    post: CarSharing,
    car_id: Seq<char>,
    user_id: Seq<char>,
    start_time: u64,
    end_time: u64,
    deposit: u128,
    e: Error,
)
    requires
        pre.book_car_outcome(car_id, user_id, start_time, end_time, deposit) == Some(e),
        post == pre,
    ensures
        post.book_car_outcome(car_id, user_id, start_time, end_time, deposit) == Some(e),
{
}

/// Law: a failed `cancel_booking` repeats identically.
pub proof fn lemma_failed_cancel_booking_repeats(
    pre: CarSharing,
    post: CarSharing,
    booking_id: Seq<char>,
    e: Error,
)
    requires
        pre.cancel_booking_outcome(booking_id) == Some(e),
        post == pre,
    ensures
        post.cancel_booking_outcome(booking_id) == Some(e),
{
}

/// Law: a failed `rent_car` repeats identically when the clock has not
/// moved.
pub proof fn lemma_failed_rent_car_repeats(
    pre: CarSharing,
    post: CarSharing,
    car_id: Seq<char>,
    user_id: Seq<char>,
    duration: u32,
    now: u64,
    attached_payment: u128,
    e: Error,
)
    requires
        pre.rent_car_outcome(car_id, user_id, duration, now, attached_payment) == Some(e),
        post == pre,
    ensures
        post.rent_car_outcome(car_id, user_id, duration, now, attached_payment) == Some(e),
{
}

/// Law: a failed `return_car` repeats identically.
pub proof fn lemma_failed_return_car_repeats(
    pre: CarSharing,
    post: CarSharing,
    car_id: Seq<char>,
    e: Error,
)
    requires
        pre.return_car_outcome(car_id) == Some(e),
        post == pre,
    ensures
        post.return_car_outcome(car_id) == Some(e),
{
}

/// Law: in a well-formed ledger, two distinct live bookings of the same
/// car never have intersecting closed-open intervals. Every mutating
/// operation requires and preserves well-formedness, so this holds
/// after every successful booking or rental.
pub proof fn lemma_no_overlapping_bookings(s: CarSharing, i: int, j: int)
    requires
        s.wf(),
        0 <= i < s.bookings@.len(),
        0 <= j < s.bookings@.len(),
        i != j,
        s.bookings@[i].car_id@ == s.bookings@[j].car_id@,
    ensures
        !(s.bookings@[i].start_time < s.bookings@[j].end_time && s.bookings@[j].start_time
            < s.bookings@[i].end_time),
{
}

/// Law: a successful owner registration is reflected exactly once by
/// the membership queries: the new owner record is present and the
/// identity now authorizes as an owner.
pub proof fn lemma_registered_owner_reflected(
    pre: CarSharing,
    post: CarSharing,
    owner_id: String,
    name: String,
)
    requires
        post.owners@ == pre.owners@.push(Owner { owner_id: owner_id, name: name }),
        post.owners_accounts@ == pre.owners_accounts@.push(owner_id),
    ensures
        post.has_owner(owner_id@),
        post.is_owner_spec(owner_id@),
{
    assert(post.owners@[post.owners@.len() - 1].owner_id@ == owner_id@);
    assert(post.owners_accounts@[post.owners_accounts@.len() - 1]@ == owner_id@);
}

/// Law: a successful user registration is reflected exactly once by
/// the membership queries.
pub proof fn lemma_registered_user_reflected(
    pre: CarSharing,
    post: CarSharing,
    user_id: String,
    name: String,
    driving_license: String,
)
    requires
        post.users@ == pre.users@.push(
            User { user_id: user_id, name: name, driving_license: driving_license },
        ),
        post.users_accounts@ == pre.users_accounts@.push(user_id),
    ensures
        post.has_user(user_id@),
        post.is_user_spec(user_id@),
{
    assert(post.users@[post.users@.len() - 1].user_id@ == user_id@);
    assert(post.users_accounts@[post.users_accounts@.len() - 1]@ == user_id@);
}

/// Law: after a successful `add_car`, the owner's listing gains exactly
/// the new car at its end, and a listing by the new car's key holds the
/// car exactly once.
pub proof fn lemma_added_car_listed_once(pre: CarSharing, post: CarSharing, c: Car)
    requires
        !pre.has_car(c.car_id@),
        post.cars@ == pre.cars@.push(c),
    ensures
        post.cars@.filter(|x: Car| x.owner_id@ == c.owner_id@) == pre.cars@.filter(
            |x: Car| x.owner_id@ == c.owner_id@,
        ).push(c),
        post.cars@.filter(|x: Car| x.car_id@ == c.car_id@) == seq![c],
        post.has_car(c.car_id@),
{
    lemma_filter_push(pre.cars@, c, |x: Car| x.owner_id@ == c.owner_id@);
    lemma_filter_push(pre.cars@, c, |x: Car| x.car_id@ == c.car_id@);
    lemma_filter_none(pre.cars@, |x: Car| x.car_id@ == c.car_id@);
    assert(post.cars@[post.cars@.len() - 1].car_id@ == c.car_id@);
    assert(Seq::<Car>::empty().push(c) =~= seq![c]);
}

/// Law: after a successful `book_car` whose derived key was free, the
/// user's booking list gains exactly the new booking at its end, and a
/// listing by the new key holds the booking exactly once.
pub proof fn lemma_new_booking_listed_once(pre: CarSharing, post: CarSharing, b: Booking)
    requires
        !pre.has_booking(b.booking_id@),
        post.bookings@ == pre.bookings@.push(b),
    ensures
        post.bookings@.filter(|x: Booking| x.user_id@ == b.user_id@) == pre.bookings@.filter(
            |x: Booking| x.user_id@ == b.user_id@,
        ).push(b),
        post.bookings@.filter(|x: Booking| x.booking_id@ == b.booking_id@) == seq![b],
        post.has_booking(b.booking_id@),
{
    lemma_filter_push(pre.bookings@, b, |x: Booking| x.user_id@ == b.user_id@);
    lemma_filter_push(pre.bookings@, b, |x: Booking| x.booking_id@ == b.booking_id@);
    lemma_filter_none(pre.bookings@, |x: Booking| x.booking_id@ == b.booking_id@);
    assert(post.bookings@[post.bookings@.len() - 1].booking_id@ == b.booking_id@);
    assert(Seq::<Booking>::empty().push(b) =~= seq![b]);
}

/// Law: after a booking is removed (cancelled, or closed out by a
/// return), no query sees it any more: neither a lookup by its key nor
/// the user's booking list, which loses exactly that entry.
pub proof fn lemma_removed_booking_not_listed(pre: CarSharing, post: CarSharing, k: int)
    requires
        pre.wf(),
        0 <= k < pre.bookings@.len(),
        post.bookings@ == pre.bookings@.remove(k),
    ensures
        !post.has_booking(pre.bookings@[k].booking_id@),
        post.bookings@.filter(
            |x: Booking| x.booking_id@ == pre.bookings@[k].booking_id@,
        ) == Seq::<Booking>::empty(),
{
    pre.bookings@.remove_ensures(k);
    assert forall|i: int| 0 <= i < post.bookings@.len() implies (
    #[trigger] post.bookings@[i]).booking_id@ != pre.bookings@[k].booking_id@ by {
        let oi = if i < k {
            i
        } else {
            i + 1
        };
        assert(post.bookings@[i] == pre.bookings@[oi]);
    }
    lemma_filter_none(
        post.bookings@,
        |x: Booking| x.booking_id@ == pre.bookings@[k].booking_id@,
    );
}

/// Law: after a car is deleted, no query sees it any more: neither a
/// lookup by its key nor its owner's listing, which loses exactly that
/// entry.
pub proof fn lemma_removed_car_not_listed(pre: CarSharing, post: CarSharing, k: int)
    requires
        pre.wf(),
        0 <= k < pre.cars@.len(),
        post.cars@ == pre.cars@.remove(k),
    ensures
        !post.has_car(pre.cars@[k].car_id@),
        post.cars@.filter(|x: Car| x.car_id@ == pre.cars@[k].car_id@) == Seq::<Car>::empty(),
{
    pre.cars@.remove_ensures(k);
    assert forall|i: int| 0 <= i < post.cars@.len() implies (#[trigger] post.cars@[i]).car_id@
        != pre.cars@[k].car_id@ by {
        let oi = if i < k {
            i
        } else {
            i + 1
        };
        assert(post.cars@[i] == pre.cars@[oi]);
    }
    lemma_filter_none(post.cars@, |x: Car| x.car_id@ == pre.cars@[k].car_id@);
}

/// Law: flipping one car's availability is reflected exactly by the
/// availability query: the car keeps its key, owner and rate, and its
/// `available` flag reads back as written.
pub proof fn lemma_car_availability_reflected(
    pre: CarSharing,
    post: CarSharing,
    car_id: Seq<char>,
    available: bool,
)
    requires
        pre.wf(),
        post.wf(),
        pre.has_car(car_id),
        post.cars@ == pre.cars@.update(
            pre.car_index(car_id),
            Car {
                car_id: pre.car_at(car_id).car_id,
                owner_id: pre.car_at(car_id).owner_id,
                available: available,
                hourly_rate: pre.car_at(car_id).hourly_rate,
            },
        ),
    ensures
        post.has_car(car_id),
        post.car_at(car_id).available == available,
        post.car_at(car_id).owner_id == pre.car_at(car_id).owner_id,
        post.car_at(car_id).hourly_rate == pre.car_at(car_id).hourly_rate,
{
    let ci = pre.car_index(car_id);
    assert(0 <= ci < pre.cars@.len() && pre.cars@[ci].car_id@ == car_id);
    assert(post.cars@[ci].car_id@ == car_id);
    let cj = post.car_index(car_id);
    assert(0 <= cj < post.cars@.len() && post.cars@[cj].car_id@ == car_id);
    if ci != cj {
        assert(post.cars@[ci].car_id@ == post.cars@[cj].car_id@);
        assert(false);
    }
}

} // verus!
