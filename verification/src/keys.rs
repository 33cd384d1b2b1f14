use vstd::prelude::*;
use vstd::string::StringExecFns;

verus! {

/// The decimal digit character for d (meaningful for 0 <= d <= 9).
pub open spec fn digit_char(d: nat) -> char {
    if d == 0 {
        '0'
    } else if d == 1 {
        '1'
    } else if d == 2 {
        '2'
    } else if d == 3 {
        '3'
    } else if d == 4 {
        '4'
    } else if d == 5 {
        '5'
    } else if d == 6 {
        '6'
    } else if d == 7 {
        '7'
    } else if d == 8 {
        '8'
    } else {
        '9'
    }
}

/// The decimal rendering of n: most significant digit first, no sign,
/// no leading zeroes, a single '0' for zero.
pub open spec fn dec_str(n: nat) -> Seq<char>
    decreases n,
{
    if n < 10 {
        seq![digit_char(n)]
    } else {
        dec_str(n / 10).push(digit_char(n % 10))
    }
}

/// The derived booking key: car id, user id and the decimal start time,
/// joined with '-'.
pub open spec fn booking_key(car_id: Seq<char>, user_id: Seq<char>, start_time: u64) -> Seq<char> {
    car_id + seq!['-'] + user_id + seq!['-'] + dec_str(start_time as nat)
}

/// Appends the decimal rendering of n to s.
fn push_dec(n: u64, s: &mut String)
    ensures
        final(s)@ == old(s)@ + dec_str(n as nat),
    decreases n,
{
    if n >= 10 {
        push_dec(n / 10, s);
    }
    let d: u64 = n % 10;
    let ds: &str = if d == 0 {
        "0"
    } else if d == 1 {
        "1"
    } else if d == 2 {
        "2"
    } else if d == 3 {
        "3"
    } else if d == 4 {
        "4"
    } else if d == 5 {
        "5"
    } else if d == 6 {
        "6"
    } else if d == 7 {
        "7"
    } else if d == 8 {
        "8"
    } else {
        "9"
    };
    proof {
        reveal_strlit("0");
        reveal_strlit("1");
        reveal_strlit("2");
        reveal_strlit("3");
        reveal_strlit("4");
        reveal_strlit("5");
        reveal_strlit("6");
        reveal_strlit("7");
        reveal_strlit("8");
        reveal_strlit("9");
        assert(ds@ =~= seq![digit_char((n % 10) as nat)]);
    }
    s.append(ds);
    proof {
        if n < 10 {
            assert(n % 10 == n);
            assert(dec_str(n as nat) =~= seq![digit_char(n as nat)]);
        } else {
            assert(dec_str(n as nat) =~= dec_str((n / 10) as nat).push(
                digit_char((n % 10) as nat),
            ));
        }
        assert(final(s)@ =~= old(s)@ + dec_str(n as nat));
    }
}

/// Builds the booking id string for one booking.
pub(crate) fn make_booking_id(car_id: &String, user_id: &String, start_time: u64) -> (r: String)
    ensures
        r@ == booking_key(car_id@, user_id@, start_time),
{
    let mut s = car_id.clone();
    s.append("-");
    s.append(user_id.as_str());
    s.append("-");
    push_dec(start_time, &mut s);
    proof {
        reveal_strlit("-");
        assert("-"@ =~= seq!['-']);
        assert(s@ =~= booking_key(car_id@, user_id@, start_time));
    }
    s
}

} // verus!
