//! What a record must offer to live in a [`crate::Pack`] or a
//! [`crate::VecPack`]: a codec to and from the text kept in its backing
//! file, a fresh record to initialize a cell with, and, for collection
//! members, a stable identifier.

use vstd::prelude::*;

use crate::codec::yaml_decode_i32;
use crate::codec::yaml_encode_i32;
use crate::codec::yaml_parse_i32;
use crate::error::PackError;
use crate::error::PackResult;

verus! {

/// A record that a `Pack` can persist: it encodes to a text whose decoding
/// yields the record back.
pub trait PackMember: Sized + View {
    /// The record, if any, that an encoded text stands for, up to the
    /// codec's equality: the record's view. Decoding is a function of the
    /// text, so a backing file determines the record it holds.
    spec fn decoded(s: Seq<char>) -> Option<Self::V>;

    /// The records that encode without fail. A member type whose codec never
    /// fails declares every record encodable, and persisting such records is
    /// then owed to succeed on a sound medium.
    spec fn encodable(v: Self::V) -> bool;

    /// The fresh record a cell is initialized with when its backing file has
    /// yet to be made.
    spec fn default_view() -> Self::V;

    /// Make the fresh record.
    fn default_record() -> (r: Self)
        ensures
            r@ == Self::default_view(),
    ;

    /// Encode this record. A produced text stands for exactly this record,
    /// and an encodable record encodes without fail.
    fn encode(&self) -> (r: PackResult<String>)
        ensures
            r matches Ok(s) ==> Self::decoded(s@) == Some(self@),
            Self::encodable(self@) ==> r is Ok,
            r matches Err(e) ==> e is SerializeError,
    ;

    /// Decode a record from text: succeeds exactly on the texts that stand
    /// for a record, and returns the record the text stands for.
    fn decode(s: &str) -> (r: PackResult<Self>)
        ensures
            r matches Ok(t) ==> Self::decoded(s@) == Some(t@),
            r is Ok <==> Self::decoded(s@) is Some,
            r matches Err(e) ==> e is DeserializeError,
    ;
}

/// What a record must offer to be a member of a `VecPack`: a stable,
/// externally chosen identifier that never changes for the record's
/// lifetime, rendered as the text that names its backing file.
pub trait VecPackMember: PackMember {
    /// The identifier a record's view carries.
    spec fn id_of(v: Self::V) -> Seq<char>;

    /// Render the record's identifier.
    fn get_id(&self) -> (r: String)
        ensures
            r@ == Self::id_of(self@),
    ;
}

impl PackMember for i32 {
    open spec fn decoded(s: Seq<char>) -> Option<i32> {
        yaml_parse_i32(s)
    }

    open spec fn encodable(v: i32) -> bool {
        true
    }

    open spec fn default_view() -> i32 {
        0
    }

    fn default_record() -> (r: i32) {
        i32::default()
    }

    fn encode(&self) -> (r: PackResult<String>) {
        match yaml_encode_i32(self) {
            Ok(s) => Ok(s),
            Err(msg) => Err(PackError::SerializeError(msg)),
        }
    }

    fn decode(s: &str) -> (r: PackResult<i32>) {
        match yaml_decode_i32(s) {
            Ok(v) => Ok(v),
            Err(msg) => Err(PackError::DeserializeError(msg)),
        }
    }
}

} // verus!
