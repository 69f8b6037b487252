//! Fractional option values, held as the decimal text handed to the tool.

use vstd::prelude::*;
use vstd::string::{StrSliceExecFns, StringExecFns};

use crate::args::ArgValue;

verus! {

/// A decimal digit.
pub open spec fn is_digit(c: char) -> bool {
    '0' <= c && c <= '9'
}

/// Where the digits of `s` start: after a leading minus sign, if any.
pub open spec fn digits_start(s: Seq<char>) -> int {
    if s.len() > 0 && s[0] == '-' {
        1
    } else {
        0
    }
}

/// Text of the form `-?[0-9]+(\.[0-9]+)?`: an optional minus sign, then
/// digits with at most one point, which has a digit on each side.
pub open spec fn is_decimal_text(s: Seq<char>) -> bool {
    let k = digits_start(s);
    &&& k < s.len()
    &&& is_digit(s[k])
    &&& is_digit(s[s.len() - 1])
    &&& forall|i: int| k <= i < s.len() ==> is_digit(#[trigger] s[i]) || s[i] == '.'
    &&& forall|i: int, j: int|
        k <= i < s.len() && k <= j < s.len() && #[trigger] s[i] == '.' && #[trigger] s[j] == '.'
            ==> i == j
}

/// A number written in decimal, such as `1.25` or `-3`.
///
/// Fractional options are held in this form: it is exactly the token that the
/// tool reads.
#[derive(Clone, Debug, PartialEq)]
pub struct Decimal {
    text: String,
}

impl View for Decimal {
    type V = Seq<char>;

    closed spec fn view(&self) -> Seq<char> {
        self.text@
    }
}

impl Decimal {
    /// The text is decimal text.
    pub closed spec fn wf(&self) -> bool {
        is_decimal_text(self.text@)
    }

    /// Reads decimal text; any other text gives `None`.
    pub fn parse(s: &str) -> (r: Option<Decimal>)
        ensures
            r is Some <==> is_decimal_text(s@),
            r matches Some(d) ==> d@ == s@ && d.wf(),
    {
        let n = s.unicode_len();
        let mut k: usize = 0;
        if n > 0 && s.get_char(0) == '-' {
            k = 1;
        }
        assert(k == digits_start(s@));
        if k >= n {
            return None;
        }
        let first = s.get_char(k);
        let last = s.get_char(n - 1);
        if !('0' <= first && first <= '9') || !('0' <= last && last <= '9') {
            return None;
        }
        let mut seen_dot = false;
        let mut dot: usize = 0;
        let mut i: usize = k;
        while i < n
            invariant
                k <= i <= n,
                n == s@.len(),
                k == digits_start(s@),
                forall|j: int| k <= j < i ==> is_digit(#[trigger] s@[j]) || s@[j] == '.',
                seen_dot ==> k <= dot < i && s@[dot as int] == '.',
                seen_dot ==> forall|j: int| k <= j < i && #[trigger] s@[j] == '.' ==> j == dot,
                !seen_dot ==> forall|j: int| k <= j < i ==> #[trigger] s@[j] != '.',
            decreases n - i,
        {
            let c = s.get_char(i);
            if c == '.' {
                if seen_dot {
                    return None;
                }
                seen_dot = true;
                dot = i;
            } else if !('0' <= c && c <= '9') {
                return None;
            }
            i = i + 1;
        }
        Some(Decimal { text: String::from_str(s) })
    }

    /// The number's text.
    pub fn to_string(&self) -> (r: String)
        ensures
            r@ == self@,
    {
        self.text.clone()
    }
}

impl ArgValue for Decimal {
    open spec fn text(&self) -> Seq<char> {
        self@
    }

    fn to_arg(&self) -> (r: String) {
        self.to_string()
    }
}

} // verus!
