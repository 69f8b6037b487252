//! Component swizzles such as `rgb1`.

use vstd::prelude::*;
use vstd::string::{StrSliceExecFns, StringExecFns};

use crate::args::ArgValue;

verus! {

/// A character that may appear in a swizzle: one of `r`, `g`, `b`, `a`, `0`, `1`.
pub open spec fn is_swizzle_char(c: char) -> bool {
    c == 'r' || c == 'g' || c == 'b' || c == 'a' || c == '0' || c == '1'
}

/// Text that reads as a swizzle: exactly four swizzle characters.
pub open spec fn is_swizzle_text(s: Seq<char>) -> bool {
    s.len() == 4 && forall|i: int| 0 <= i < 4 ==> is_swizzle_char(#[trigger] s[i])
}

/// What reading `s` as a swizzle gives: the text itself when it is swizzle
/// text; no index when its length is not four; otherwise the index of the
/// first character that is not a swizzle character.
pub open spec fn parse_outcome(s: Seq<char>) -> Result<Seq<char>, Option<usize>> {
    if s.len() != 4 {
        Err(None)
    } else if !is_swizzle_char(s[0]) {
        Err(Some(0))
    } else if !is_swizzle_char(s[1]) {
        Err(Some(1))
    } else if !is_swizzle_char(s[2]) {
        Err(Some(2))
    } else if !is_swizzle_char(s[3]) {
        Err(Some(3))
    } else {
        Ok(s)
    }
}

/// A character that can appear in a [`Swizzle`].
#[derive(Clone, Copy, Hash, PartialEq, Eq, Debug)]
pub struct SwizzleChar(char);

impl View for SwizzleChar {
    type V = char;

    closed spec fn view(&self) -> char {
        self.0
    }
}

impl SwizzleChar {
    #[verifier::type_invariant]
    spec fn inv(&self) -> bool {
        is_swizzle_char(self.0)
    }

    /// The character `r`.
    pub fn r() -> (r: SwizzleChar)
        ensures
            r@ == 'r',
    {
        SwizzleChar('r')
    }

    /// The character `g`.
    pub fn g() -> (r: SwizzleChar)
        ensures
            r@ == 'g',
    {
        SwizzleChar('g')
    }

    /// The character `b`.
    pub fn b() -> (r: SwizzleChar)
        ensures
            r@ == 'b',
    {
        SwizzleChar('b')
    }

    /// The character `a`.
    pub fn a() -> (r: SwizzleChar)
        ensures
            r@ == 'a',
    {
        SwizzleChar('a')
    }

    /// The character `0`.
    pub fn zero() -> (r: SwizzleChar)
        ensures
            r@ == '0',
    {
        SwizzleChar('0')
    }

    /// The character `1`.
    pub fn one() -> (r: SwizzleChar)
        ensures
            r@ == '1',
    {
        SwizzleChar('1')
    }

    /// The character held.
    pub fn as_char(&self) -> (r: char)
        ensures
            r == self@,
            is_swizzle_char(r),
    {
        proof { use_type_invariant(self); }
        self.0
    }

    /// The character held, as a one-character string.
    pub fn as_str(&self) -> (r: &'static str)
        ensures
            r@ == seq![self@],
            is_swizzle_char(self@),
    {
        proof { use_type_invariant(self); }
        if self.0 == 'r' {
            proof { reveal_strlit("r"); }
            "r"
        } else if self.0 == 'g' {
            proof { reveal_strlit("g"); }
            "g"
        } else if self.0 == 'b' {
            proof { reveal_strlit("b"); }
            "b"
        } else if self.0 == 'a' {
            proof { reveal_strlit("a"); }
            "a"
        } else if self.0 == '0' {
            proof { reveal_strlit("0"); }
            "0"
        } else {
            proof { reveal_strlit("1"); }
            "1"
        }
    }

    /// Accepts `c` if it is a swizzle character.
    pub fn new(c: char) -> (r: Option<SwizzleChar>)
        ensures
            r is Some <==> is_swizzle_char(c),
            r matches Some(v) ==> v@ == c,
    {
        if c == 'r' || c == 'g' || c == 'b' || c == 'a' || c == '0' || c == '1' {
            Some(SwizzleChar(c))
        } else {
            None
        }
    }
}

impl TryFrom<char> for SwizzleChar {
    type Error = char;

    fn try_from(c: char) -> (r: Result<SwizzleChar, char>) {
        match SwizzleChar::new(c) {
            Some(v) => Ok(v),
            None => Err(c),
        }
    }
}

impl vstd::std_specs::convert::TryFromSpecImpl<char> for SwizzleChar {
    open spec fn obeys_try_from_spec() -> bool {
        true
    }

    closed spec fn try_from_spec(c: char) -> Result<SwizzleChar, char> {
        if is_swizzle_char(c) {
            Ok(SwizzleChar(c))
        } else {
            Err(c)
        }
    }
}

impl From<SwizzleChar> for char {
    fn from(v: SwizzleChar) -> (r: char) {
        v.0
    }
}

impl vstd::std_specs::convert::FromSpecImpl<SwizzleChar> for char {
    open spec fn obeys_from_spec() -> bool {
        true
    }

    open spec fn from_spec(v: SwizzleChar) -> char {
        v@
    }
}

/// Four swizzle characters, matching `^[rgba01]{4}$`.
#[derive(Clone, Copy, Hash, PartialEq, Eq, Debug)]
pub struct Swizzle(pub [SwizzleChar; 4]);

impl View for Swizzle {
    type V = Seq<char>;

    open spec fn view(&self) -> Seq<char> {
        self.0@.map_values(|c: SwizzleChar| c@)
    }
}

impl Swizzle {
    /// Renders the swizzle as its four characters.
    pub fn to_string(&self) -> (r: String)
        ensures
            r@ == self@,
            is_swizzle_text(r@),
    {
        let mut s = String::from_str(self.0[0].as_str());
        s.append(self.0[1].as_str());
        s.append(self.0[2].as_str());
        s.append(self.0[3].as_str());
        assert(s@ =~= self@);
        s
    }

    /// Reads a swizzle. Text whose length is not four characters is refused
    /// with `Err(None)`; otherwise the first character that is not a swizzle
    /// character is refused with `Err(Some(its index))`.
    pub fn parse(s: &str) -> (r: Result<Swizzle, Option<usize>>)
        ensures
            r matches Ok(w) ==> parse_outcome(s@) == Ok::<Seq<char>, Option<usize>>(w@),
            r matches Err(e) ==> parse_outcome(s@) == Err::<Seq<char>, Option<usize>>(e),
    {
        if s.unicode_len() != 4 {
            return Err(None);
        }
        let a = match SwizzleChar::new(s.get_char(0)) {
            Some(c) => c,
            None => return Err(Some(0)),
        };
        let b = match SwizzleChar::new(s.get_char(1)) {
            Some(c) => c,
            None => return Err(Some(1)),
        };
        let c = match SwizzleChar::new(s.get_char(2)) {
            Some(c) => c,
            None => return Err(Some(2)),
        };
        let d = match SwizzleChar::new(s.get_char(3)) {
            Some(c) => c,
            None => return Err(Some(3)),
        };
        let w = Swizzle([a, b, c, d]);
        assert(w@ =~= s@);
        assert(parse_outcome(s@) == Ok::<Seq<char>, Option<usize>>(s@));
        Ok(w)
    }
}

/// Reading accepts exactly the four-character texts over `r`, `g`, `b`, `a`,
/// `0`, `1`, and then yields the text itself, which is what the swizzle renders
/// back to. Any other text is refused: with no index when its length is not
/// four, else with the index of its first character outside that set.
pub proof fn lemma_parse_round_trip(s: Seq<char>)
    ensures
        is_swizzle_text(s) <==> parse_outcome(s) is Ok,
        parse_outcome(s) matches Ok(t) ==> t == s,
        parse_outcome(s) == Err::<Seq<char>, Option<usize>>(None) <==> s.len() != 4,
        parse_outcome(s) matches Err(Some(i)) ==> i < 4 && !is_swizzle_char(s[i as int]) && (
        forall|j: int| 0 <= j < i ==> is_swizzle_char(#[trigger] s[j])),
{
    if s.len() == 4 && is_swizzle_char(s[0]) && is_swizzle_char(s[1]) && is_swizzle_char(s[2])
        && is_swizzle_char(s[3]) {
        assert forall|i: int| 0 <= i < 4 implies is_swizzle_char(#[trigger] s[i]) by {
            if i == 0 {
            } else if i == 1 {
            } else if i == 2 {
            } else {
            }
        }
    }
}

impl std::str::FromStr for Swizzle {
    type Err = Option<usize>;

    fn from_str(s: &str) -> Result<Swizzle, Option<usize>> {
        Swizzle::parse(s)
    }
}

impl From<[SwizzleChar; 4]> for Swizzle {
    fn from(v: [SwizzleChar; 4]) -> (r: Swizzle) {
        Swizzle(v)
    }
}

impl vstd::std_specs::convert::FromSpecImpl<[SwizzleChar; 4]> for Swizzle {
    open spec fn obeys_from_spec() -> bool {
        true
    }

    open spec fn from_spec(v: [SwizzleChar; 4]) -> Swizzle {
        Swizzle(v)
    }
}

impl ArgValue for Swizzle {
    open spec fn text(&self) -> Seq<char> {
        self@
    }

    fn to_arg(&self) -> (r: String) {
        self.to_string()
    }
}

} // verus!
