//! A ready-made record type: a user with a stable id, a name and an age.
//!
//! `User` shows what a record must bring to live in the store, and is the
//! record type of the crate's end-to-end scenarios: it encodes through the
//! YAML codec, reports its id, and its codec round-trips by contract.

use vstd::prelude::*;
use vstd::string::StringExecFns;

use crate::codec::yaml_decode_user;
use crate::codec::yaml_encode_user;
use crate::codec::yaml_parse_user;
use crate::error::PackError;
use crate::error::PackResult;
use crate::member::PackMember;
use crate::member::VecPackMember;

verus! {

/// A user record: a stable, externally chosen id, a display name, an age.
#[derive(Clone)]
pub struct User {
    id: String,
    name: String,
    age: i32,
}

/// What a [`User`] is up to the codec's equality: the contents of its
/// fields.
pub struct UserView {
    pub id: Seq<char>,
    pub name: Seq<char>,
    pub age: i32,
}

impl View for User {
    type V = UserView;

    closed spec fn view(&self) -> UserView {
        UserView { id: self.id@, name: self.name@, age: self.age }
    }
}

impl User {
    /// A user with the given id, name and age.
    pub fn new(id: &str, name: &str, age: i32) -> (r: User)
        ensures
            r@ == (UserView { id: id@, name: name@, age }),
    {
        User { id: id.to_owned(), name: name.to_owned(), age }
    }

    /// The user's name.
    pub fn get_name(&self) -> (r: &str)
        ensures
            r@ == self@.name,
    {
        self.name.as_str()
    }

    /// Rename the user; id and age stay.
    pub fn set_name(&mut self, name: &str)
        ensures
            final(self)@ == (UserView { name: name@, ..old(self)@ }),
    {
        self.name = name.to_owned();
    }

    /// The user's age.
    pub fn get_age(&self) -> (r: i32)
        ensures
            r == self@.age,
    {
        self.age
    }
}

impl Default for User {
    /// The blank user: empty id, empty name, age zero.
    fn default() -> (r: User)
        ensures
            r@ == (UserView { id: Seq::empty(), name: Seq::empty(), age: 0 }),
    {
        User { id: String::new(), name: String::new(), age: 0 }
    }
}

impl PackMember for User {
    open spec fn decoded(s: Seq<char>) -> Option<UserView> {
        match yaml_parse_user(s) {
            Some(t) => Some(UserView { id: t.0, name: t.1, age: t.2 }),
            None => None,
        }
    }

    open spec fn encodable(v: UserView) -> bool {
        true
    }

    open spec fn default_view() -> UserView {
        UserView { id: Seq::empty(), name: Seq::empty(), age: 0 }
    }

    fn default_record() -> (r: User) {
        User::default()
    }

    fn encode(&self) -> (r: PackResult<String>) {
        match yaml_encode_user(&self.id, &self.name, self.age) {
            Ok(s) => Ok(s),
            Err(msg) => Err(PackError::SerializeError(msg)),
        }
    }

    fn decode(s: &str) -> (r: PackResult<User>) {
        match yaml_decode_user(s) {
            Ok(t) => Ok(User { id: t.0, name: t.1, age: t.2 }),
            Err(msg) => Err(PackError::DeserializeError(msg)),
        }
    }
}

impl VecPackMember for User {
    open spec fn id_of(v: UserView) -> Seq<char> {
        v.id
    }

    fn get_id(&self) -> (r: String) {
        self.id.clone()
    }
}

} // verus!
