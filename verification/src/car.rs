//! A ready-made record type: a car with a numeric id, a name and a power.
//!
//! `Car` is the second record shape the crate ships: its id is a number, and
//! the file name of its backing file carries the id's decimal rendering,
//! computed by a verified renderer.

use vstd::prelude::*;
use vstd::string::StringExecFns;

use crate::codec::yaml_decode_car;
use crate::codec::yaml_encode_car;
use crate::codec::yaml_parse_car;
use crate::error::PackError;
use crate::error::PackResult;
use crate::member::PackMember;
use crate::member::VecPackMember;

verus! {

/// The character of one decimal digit.
pub open spec fn digit_char(d: nat) -> char {
    if d == 0 {
        '0'
    } else if d == 1 {
        '1'
    } else if d == 2 {
        '2'
    } else if d == 3 {
        '3'
    } else if d == 4 {
        '4'
    } else if d == 5 {
        '5'
    } else if d == 6 {
        '6'
    } else if d == 7 {
        '7'
    } else if d == 8 {
        '8'
    } else {
        '9'
    }
}

/// The decimal rendering of a number: most significant digit first, no sign,
/// no leading zero but for the number zero itself.
pub open spec fn decimal_rep(n: nat) -> Seq<char>
    decreases n,
{
    if n < 10 {
        seq![digit_char(n)]
    } else {
        decimal_rep(n / 10) + seq![digit_char(n % 10)]
    }
}

/// The text of one decimal digit.
fn digit_str(d: usize) -> (r: &'static str)
    requires
        d < 10,
    ensures
        r@ == seq![digit_char(d as nat)],
{
    proof {
        reveal_strlit("0");
        reveal_strlit("1");
        reveal_strlit("2");
        reveal_strlit("3");
        reveal_strlit("4");
        reveal_strlit("5");
        reveal_strlit("6");
        reveal_strlit("7");
        reveal_strlit("8");
        reveal_strlit("9");
    }
    let r = if d == 0 {
        "0"
    } else if d == 1 {
        "1"
    } else if d == 2 {
        "2"
    } else if d == 3 {
        "3"
    } else if d == 4 {
        "4"
    } else if d == 5 {
        "5"
    } else if d == 6 {
        "6"
    } else if d == 7 {
        "7"
    } else {
        "8"
    };
    if d == 9 {
        proof {
            assert("9"@ =~= seq![digit_char(9nat)]);
        }
        return "9";
    }
    proof {
        assert(r@ =~= seq![digit_char(d as nat)]);
    }
    r
}

/// Render a number's decimal digits.
pub fn render_usize(n: usize) -> (r: String)
    ensures
        r@ == decimal_rep(n as nat),
    decreases n,
{
    if n < 10 {
        String::from_str(digit_str(n))
    } else {
        let prefix = render_usize(n / 10);
        prefix.concat(digit_str(n % 10))
    }
}

/// A car record: a stable numeric id, a display name, a power rating.
#[derive(Clone)]
pub struct Car {
    pub id: usize,
    pub name: String,
    pub hp: u32,
}

impl View for Car {
    type V = (usize, Seq<char>, u32);

    open spec fn view(&self) -> (usize, Seq<char>, u32) {
        (self.id, self.name@, self.hp)
    }
}

impl Car {
    /// A car with the given id, name and power.
    pub fn new(id: usize, name: String, hp: u32) -> (r: Car)
        ensures
            r@ == (id, name@, hp),
    {
        Car { id, name, hp }
    }
}

impl Default for Car {
    /// The blank car: id zero, empty name, no power.
    fn default() -> (r: Car)
        ensures
            r@ == (0usize, Seq::<char>::empty(), 0u32),
    {
        Car { id: 0, name: String::new(), hp: 0 }
    }
}

impl PackMember for Car {
    open spec fn decoded(s: Seq<char>) -> Option<(usize, Seq<char>, u32)> {
        yaml_parse_car(s)
    }

    open spec fn encodable(v: (usize, Seq<char>, u32)) -> bool {
        true
    }

    open spec fn default_view() -> (usize, Seq<char>, u32) {
        (0usize, Seq::<char>::empty(), 0u32)
    }

    fn default_record() -> (r: Car) {
        Car::default()
    }

    fn encode(&self) -> (r: PackResult<String>) {
        match yaml_encode_car(self.id, &self.name, self.hp) {
            Ok(s) => Ok(s),
            Err(msg) => Err(PackError::SerializeError(msg)),
        }
    }

    fn decode(s: &str) -> (r: PackResult<Car>) {
        match yaml_decode_car(s) {
            Ok(t) => Ok(Car { id: t.0, name: t.1, hp: t.2 }),
            Err(msg) => Err(PackError::DeserializeError(msg)),
        }
    }
}

impl VecPackMember for Car {
    open spec fn id_of(v: (usize, Seq<char>, u32)) -> Seq<char> {
        decimal_rep(v.0 as nat)
    }

    fn get_id(&self) -> (r: String) {
        render_usize(self.id)
    }
}

} // verus!
