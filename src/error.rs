//! Errors reported by cursor operations.
use vstd::prelude::*;

verus! {

/// A requested start point outside the subscription's retention window.
#[derive(Clone, Copy, Debug, PartialEq, Eq, Structural)]
pub enum RetentionError {
    /// The start point lies in the future.
    TooLate,
    /// The start point lies before the retention window.
    TooEarly,
}

/// The failures of declare, fetch and close.
#[derive(Clone, Copy, Debug, PartialEq, Eq, Structural)]
pub enum CursorError {
    /// A cursor of that name already exists in the session.
    DuplicateCursor,
    /// No cursor of that name exists in the session.
    CursorNotFound,
    /// The subscription does not exist, or no longer does.
    SubscriptionNotFound,
    /// The requested start point violates the retention window.
    Retention(RetentionError),
}

impl CursorError {
    /// A human-readable message for the error.
    pub fn message(&self) -> (m: &'static str)
        ensures
            *self == CursorError::DuplicateCursor ==> m@ == "cursor already exists"@,
            *self == CursorError::CursorNotFound ==> m@ == "cursor not found"@,
            *self == CursorError::SubscriptionNotFound ==> m@ == "subscription not found"@,
            *self == CursorError::Retention(RetentionError::TooLate) ==> m@
                == "rw_timestamp is too large, need to be less than the current unix_millis"@,
            *self == CursorError::Retention(RetentionError::TooEarly) ==> m@
                == "rw_timestamp is too small, need to be large than the current unix_millis - subscription's retention time"@,
    {
        match self {
            CursorError::DuplicateCursor => "cursor already exists",
            CursorError::CursorNotFound => "cursor not found",
            CursorError::SubscriptionNotFound => "subscription not found",
            CursorError::Retention(RetentionError::TooLate) =>
                "rw_timestamp is too large, need to be less than the current unix_millis",
            CursorError::Retention(RetentionError::TooEarly) =>
                "rw_timestamp is too small, need to be large than the current unix_millis - subscription's retention time",
        }
    }
}

} // verus!
