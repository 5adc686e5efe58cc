//! The durable view of the domain: its version, and what can go wrong with it.

use vstd::prelude::*;

use crate::text::joined;

verus! {

/// The version of the view's shape. A reader refuses one that it does not know.
pub const SNAPSHOT_VERSION: u32 = 1;

/// Why a view could not be read or written.
#[derive(Debug, PartialEq, Eq)]
pub enum SnapshotError {
    /// The store refused an operation.
    Io(String),
    /// What is stored is not a view.
    Corrupt(String),
    /// The view could not be encoded.
    Encode(String),
}

impl SnapshotError {
    /// What went wrong, in words.
    pub fn message(&self) -> (result: String)
        ensures
            result@ == (match *self {
                SnapshotError::Io(message) => "snapshot io error: "@ + message@,
                SnapshotError::Corrupt(message) => "snapshot is corrupt: "@ + message@,
                SnapshotError::Encode(message) => "snapshot could not be encoded: "@ + message@,
            }),
    {
        match self {
            SnapshotError::Io(message) => joined("snapshot io error: ", message.as_str()),
            SnapshotError::Corrupt(message) => joined("snapshot is corrupt: ", message.as_str()),
            SnapshotError::Encode(message) => joined(
                "snapshot could not be encoded: ",
                message.as_str(),
            ),
        }
    }
}

// What a snapshot promises.

/// An error of a snapshot says what happened and why.
pub proof fn snapshot_errors_say_what_happened(error: SnapshotError, message: String)
    requires
        call_ensures(SnapshotError::message, (&error,), message),
    ensures
        error matches SnapshotError::Io(why) ==> message@ == "snapshot io error: "@ + why@,
        error matches SnapshotError::Corrupt(why) ==> message@ == "snapshot is corrupt: "@ + why@,
        error matches SnapshotError::Encode(why) ==> message@ == "snapshot could not be encoded: "@ + why@,
{
}

} // verus!
