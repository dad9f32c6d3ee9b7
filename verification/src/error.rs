//! The storage-level error taxonomy and its user-facing messages.

use vstd::prelude::*;
use vstd::string::StringExecFns;

verus! {

/// Result alias for the storage-level operations.
pub type StorageResult<T> = Result<T, Error>;

/// Storage error type.
#[derive(Debug)]
pub enum Error {
    /// Any error that has a custom message; a catch-all for invariant
    /// violations that no more specific variant covers.
    InternalError(String),
    /// Object not found in a storage; the result of a failed id lookup.
    ObjectNotFound,
    /// Path not found while reading data from a path.
    PathNotFound,
    /// Encoding a record failed.
    SerializeError(String),
    /// Decoding a record failed.
    DeserializeError(String),
    /// A file operation failed.
    IOError(String),
}

impl Error {
    /// The user-facing text for this error.
    pub open spec fn message_spec(&self) -> Seq<char> {
        match self {
            Error::InternalError(msg) => "Internal error: "@ + msg@,
            Error::ObjectNotFound => "Storage object not found in storage."@,
            Error::PathNotFound => "Path not found"@,
            _ => "Unknown error"@,
        }
    }

    /// Render the user-facing text for this error.
    pub fn message(&self) -> (r: String)
        ensures
            r@ == self.message_spec(),
    {
        match self {
            Error::InternalError(msg) => String::from_str("Internal error: ").concat(
                msg.as_str(),
            ),
            Error::ObjectNotFound => String::from_str("Storage object not found in storage."),
            Error::PathNotFound => String::from_str("Path not found"),
            _ => String::from_str("Unknown error"),
        }
    }
}

/// Result alias for the pack-level operations.
pub type PackResult<T> = Result<T, PackError>;

/// Pack error type.
#[derive(Debug)]
pub enum PackError {
    /// Any error that has a custom message; a catch-all for invariant
    /// violations that no more specific variant covers.
    InternalError(String),
    /// Encoding a record failed.
    SerializeError(String),
    /// Decoding a record failed.
    DeserializeError(String),
    /// A file operation failed.
    IOError(String),
    /// Object not found in a storage; the result of a failed id lookup.
    ObjectNotFound,
    /// Path not found while reading data from a path.
    PathNotFound,
    /// The id of the record to insert is already present in the collection.
    IDTaken,
}

impl PackError {
    /// The user-facing text for this error.
    pub open spec fn message_spec(&self) -> Seq<char> {
        match self {
            PackError::InternalError(msg) => "Internal error: "@ + msg@,
            PackError::SerializeError(msg) => "Pack serialization error: "@ + msg@,
            PackError::DeserializeError(msg) => "Pack deserialization error: "@ + msg@,
            PackError::IOError(msg) => "Pack IO error: "@ + msg@,
            PackError::PathNotFound => "Path not found"@,
            PackError::ObjectNotFound => "Storage object not found in storage."@,
            PackError::IDTaken => "VecPack ID already taken"@,
        }
    }

    /// Render the user-facing text for this error.
    pub fn message(&self) -> (r: String)
        ensures
            r@ == self.message_spec(),
    {
        match self {
            PackError::InternalError(msg) => String::from_str("Internal error: ").concat(
                msg.as_str(),
            ),
            PackError::SerializeError(msg) => String::from_str(
                "Pack serialization error: ",
            ).concat(msg.as_str()),
            PackError::DeserializeError(msg) => String::from_str(
                "Pack deserialization error: ",
            ).concat(msg.as_str()),
            PackError::IOError(msg) => String::from_str("Pack IO error: ").concat(msg.as_str()),
            PackError::PathNotFound => String::from_str("Path not found"),
            PackError::ObjectNotFound => String::from_str(
                "Storage object not found in storage.",
            ),
            PackError::IDTaken => String::from_str("VecPack ID already taken"),
        }
    }
}

} // verus!
