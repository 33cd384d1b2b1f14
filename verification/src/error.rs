use vstd::prelude::*;

verus! {

/// Every way an operation on the ledger can fail.
///
/// Each precondition violation is reported as the specific kind below,
/// fail-fast: a failed operation leaves the ledger unchanged.
#[derive(Clone, Copy, Debug, PartialEq, Eq, Structural)]
pub enum Error {
    OwnerAlreadyExists,
    UserAlreadyExists,
    CarAlreadyExists,
    OwnerNotFound,
    UserNotFound,
    CarNotFound,
    CarNotAvailable,
    InsufficientDeposit,
    InsufficientPayment,
    Unauthorized,
    InvalidDriver,
    InvalidRate,
    InvalidInterval,
    BookingNotFound,
    InvalidIdentity,
}

impl Error {
    /// The human-readable description of this error kind.
    pub open spec fn message_spec(self) -> Seq<char> {
        match self {
            Error::OwnerAlreadyExists => "Owner already exists"@,
            Error::UserAlreadyExists => "User already exists"@,
            Error::CarAlreadyExists => "Car already exists"@,
            Error::OwnerNotFound => "Owner not found"@,
            Error::UserNotFound => "User not found"@,
            Error::CarNotFound => "Car not found"@,
            Error::CarNotAvailable => "Car not available"@,
            Error::InsufficientDeposit => "Insufficient deposit"@,
            Error::InsufficientPayment => "Insufficient payment"@,
            Error::Unauthorized => "Unauthorized"@,
            Error::InvalidDriver => "Invalid driver"@,
            Error::InvalidRate => "Invalid hourly rate"@,
            Error::InvalidInterval => "Invalid booking time"@,
            Error::BookingNotFound => "Booking not found"@,
            Error::InvalidIdentity => "Invalid identity"@,
        }
    }

    pub fn message(&self) -> (r: &'static str)
        ensures
            r@ == self.message_spec(),
    {
        match self {
            Error::OwnerAlreadyExists => "Owner already exists",
            Error::UserAlreadyExists => "User already exists",
            Error::CarAlreadyExists => "Car already exists",
            Error::OwnerNotFound => "Owner not found",
            Error::UserNotFound => "User not found",
            Error::CarNotFound => "Car not found",
            Error::CarNotAvailable => "Car not available",
            Error::InsufficientDeposit => "Insufficient deposit",
            Error::InsufficientPayment => "Insufficient payment",
            Error::Unauthorized => "Unauthorized",
            Error::InvalidDriver => "Invalid driver",
            Error::InvalidRate => "Invalid hourly rate",
            Error::InvalidInterval => "Invalid booking time",
            Error::BookingNotFound => "Booking not found",
            Error::InvalidIdentity => "Invalid identity",
        }
    }
}

} // verus!
