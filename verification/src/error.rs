//! Why a lock could not be taken.
use vstd::prelude::*;

verus! {

/// `std::io::Error`, the error of a failed system call. It is carried from the
/// event that reports it to the caller, unread and unchanged.
#[verifier::external_type_specification]
#[verifier::external_body]
pub struct ExIoError(std::io::Error);

/// The ways in which taking a lock fails.
#[derive(Debug)]
pub enum LockError {
    /// Every attempt that the options allow was made, and none took the lock.
    TimedOut,
    /// A system call failed for a reason that trying again would not mend.
    Io(std::io::Error),
}

impl LockError {
    /// Did the attempts run out?
    pub fn is_timed_out(&self) -> (timed_out: bool)
        ensures
            timed_out == (*self is TimedOut),
    {
        match self {
            LockError::TimedOut => true,
            LockError::Io(_) => false,
        }
    }
}

} // verus!
