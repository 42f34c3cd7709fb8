//! Axis taxonomy: the four semantic axis kinds (space, time, channel,
//! custom) and their canonical short codes.
//!
//! Every kind parses from and serializes to its code: `x`/`y`/`z` for the
//! three spatial axes, `t` for time, `c` for channel, and any unreserved
//! code for a custom axis. Parsing a code outside a kind's vocabulary is a
//! hard failure, never a silent default.

use vstd::prelude::*;
use crate::util::str_eq;

verus! {

/// Error returned when a short axis code lies outside the vocabulary of the
/// axis kind it was parsed against.
#[derive(Clone, Copy, Debug, PartialEq, Eq, Structural)]
pub struct AxisParseError;

/// Codes claimed by the space, time and channel kinds; a custom axis may
/// carry any code but these.
pub open spec fn reserved_code(code: Seq<char>) -> bool {
    code == "x"@ || code == "y"@ || code == "z"@ || code == "t"@ || code == "c"@
}

/// A spatial axis. Which physical dimension it denotes is carried by the
/// code identity (`x`, `y`, `z`), never by its position in a list.
#[derive(Clone, Copy, Debug, PartialEq, Eq, Structural)]
pub enum SpaceAxis {
    X,
    Y,
    Z,
}

impl SpaceAxis {
    /// The canonical short code of this spatial axis.
    pub open spec fn code_spec(&self) -> Seq<char> {
        match self {
            SpaceAxis::X => "x"@,
            SpaceAxis::Y => "y"@,
            SpaceAxis::Z => "z"@,
        }
    }

    /// What parsing a code against the spatial vocabulary yields.
    pub open spec fn spec_parse(code: Seq<char>) -> Result<SpaceAxis, AxisParseError> {
        if code == "x"@ {
            Ok(SpaceAxis::X)
        } else if code == "y"@ {
            Ok(SpaceAxis::Y)
        } else if code == "z"@ {
            Ok(SpaceAxis::Z)
        } else {
            Err(AxisParseError)
        }
    }

    pub fn from_str(code: &str) -> (r: Result<SpaceAxis, AxisParseError>)
        ensures
            r == SpaceAxis::spec_parse(code@),
    {
        if str_eq(code, "x") {
            Ok(SpaceAxis::X)
        } else if str_eq(code, "y") {
            Ok(SpaceAxis::Y)
        } else if str_eq(code, "z") {
            Ok(SpaceAxis::Z)
        } else {
            Err(AxisParseError)
        }
    }

    pub fn to_str(&self) -> (r: &'static str)
        ensures
            r@ == self.code_spec(),
    {
        match self {
            SpaceAxis::X => "x",
            SpaceAxis::Y => "y",
            SpaceAxis::Z => "z",
        }
    }
}

/// The time axis; its only code is `t`.
#[derive(Clone, Copy, Debug, PartialEq, Eq, Structural)]
pub struct TimeAxis;

impl TimeAxis {
    /// The canonical short code of the time axis.
    pub open spec fn code_spec(&self) -> Seq<char> {
        "t"@
    }

    /// What parsing a code against the time vocabulary yields.
    pub open spec fn spec_parse(code: Seq<char>) -> Result<TimeAxis, AxisParseError> {
        if code == "t"@ {
            Ok(TimeAxis)
        } else {
            Err(AxisParseError)
        }
    }

    pub fn from_str(code: &str) -> (r: Result<TimeAxis, AxisParseError>)
        ensures
            r == TimeAxis::spec_parse(code@),
    {
        if str_eq(code, "t") {
            Ok(TimeAxis)
        } else {
            Err(AxisParseError)
        }
    }

    pub fn to_str(&self) -> (r: &'static str)
        ensures
            r@ == self.code_spec(),
    {
        "t"
    }
}

/// The channel axis; its only code is `c`.
#[derive(Clone, Copy, Debug, PartialEq, Eq, Structural)]
pub struct ChannelAxis;

impl ChannelAxis {
    /// The canonical short code of the channel axis.
    pub open spec fn code_spec(&self) -> Seq<char> {
        "c"@
    }

    /// What parsing a code against the channel vocabulary yields.
    pub open spec fn spec_parse(code: Seq<char>) -> Result<ChannelAxis, AxisParseError> {
        if code == "c"@ {
            Ok(ChannelAxis)
        } else {
            Err(AxisParseError)
        }
    }

    pub fn from_str(code: &str) -> (r: Result<ChannelAxis, AxisParseError>)
        ensures
            r == ChannelAxis::spec_parse(code@),
    {
        if str_eq(code, "c") {
            Ok(ChannelAxis)
        } else {
            Err(AxisParseError)
        }
    }

    pub fn to_str(&self) -> (r: &'static str)
        ensures
            r@ == self.code_spec(),
    {
        "c"
    }
}

/// A user-defined axis. Its code is the user-chosen name, which may be any
/// code not claimed by the space, time or channel kinds.
#[derive(Clone, Debug)]
pub struct CustomAxis {
    pub name: String,
}

impl CustomAxis {
    /// The canonical short code of a custom axis is its name.
    pub open spec fn code_spec(&self) -> Seq<char> {
        self.name@
    }

    pub fn from_str(code: &str) -> (r: Result<CustomAxis, AxisParseError>)
        ensures
            r is Ok <==> !reserved_code(code@),
            r is Ok ==> r->Ok_0.code_spec() == code@,
    {
        if str_eq(code, "x") || str_eq(code, "y") || str_eq(code, "z") || str_eq(code, "t")
            || str_eq(code, "c") {
            Err(AxisParseError)
        } else {
            Ok(CustomAxis { name: code.to_owned() })
        }
    }

    pub fn to_str(&self) -> (r: &str)
        ensures
            r@ == self.code_spec(),
    {
        self.name.as_str()
    }
}

impl PartialEq for CustomAxis {
    fn eq(&self, other: &CustomAxis) -> (r: bool) {
        self.name == other.name
    }
}

impl vstd::std_specs::cmp::PartialEqSpecImpl for CustomAxis {
    open spec fn obeys_eq_spec() -> bool {
        true
    }

    open spec fn eq_spec(&self, other: &CustomAxis) -> bool {
        self.name@ == other.name@
    }
}

/// The five reserved codes are pairwise distinct character sequences.
pub proof fn lemma_reserved_codes_distinct()
    ensures
        "x"@ != "y"@ && "x"@ != "z"@ && "x"@ != "t"@ && "x"@ != "c"@,
        "y"@ != "z"@ && "y"@ != "t"@ && "y"@ != "c"@,
        "z"@ != "t"@ && "z"@ != "c"@,
        "t"@ != "c"@,
{
    reveal_strlit("x");
    reveal_strlit("y");
    reveal_strlit("z");
    reveal_strlit("t");
    reveal_strlit("c");
    assert("x"@[0] == 'x');
    assert("y"@[0] == 'y');
    assert("z"@[0] == 'z');
    assert("t"@[0] == 't');
    assert("c"@[0] == 'c');
}

/// Round-trip law, serialize-then-parse direction: every axis value parses
/// back from its own canonical code.
pub proof fn lemma_code_round_trip(s: SpaceAxis, t: TimeAxis, c: ChannelAxis)
    ensures
        SpaceAxis::spec_parse(s.code_spec()) == Ok::<SpaceAxis, AxisParseError>(s),
        TimeAxis::spec_parse(t.code_spec()) == Ok::<TimeAxis, AxisParseError>(t),
        ChannelAxis::spec_parse(c.code_spec()) == Ok::<ChannelAxis, AxisParseError>(c),
{
    lemma_reserved_codes_distinct();
}

/// Round-trip law, parse-then-serialize direction: every code in a kind's
/// vocabulary is the canonical code of the axis it parses to.
pub proof fn lemma_parse_round_trip(code: Seq<char>)
    ensures
        SpaceAxis::spec_parse(code) is Ok ==> SpaceAxis::spec_parse(code)->Ok_0.code_spec()
            == code,
        TimeAxis::spec_parse(code) is Ok ==> TimeAxis::spec_parse(code)->Ok_0.code_spec() == code,
        ChannelAxis::spec_parse(code) is Ok ==> ChannelAxis::spec_parse(code)->Ok_0.code_spec()
            == code,
{
}

} // verus!
