//! UASTC encoder options.

use vstd::prelude::*;

use crate::args::{
    add_flag, add_named, decimal, decimal_string, flag_run, lemma_change_one_run, lemma_no_runs, lemma_push_run,
    named_run, ArgList, ArgValue,
};
use crate::decimal::Decimal;

verus! {

/// High-quality transcodable UASTC format options.
#[derive(Debug, Clone, PartialEq)]
pub struct UASTCOptions {
    /// `--uastc_quality`: speed vs. quality tradeoff.
    pub quality: Option<UASTCQuality>,
    /// `--uastc_rdo_l`: enable RDO post-processing with this quality scalar (lambda).
    pub rdo_lambda: Option<Decimal>,
    /// `--uastc_rdo_d`: RDO dictionary size in bytes.
    pub rdo_dictionary_size: Option<u16>,
    /// `--uastc_rdo_b`: RDO max smooth block error scale.
    pub rdo_block_error_scale: Option<Decimal>,
    /// `--uastc_rdo_s`: RDO max smooth block standard deviation.
    pub rdo_std_dev: Option<Decimal>,
    /// `--uastc_rdo_f`: do not favor simpler UASTC modes in RDO mode.
    pub rdo_f: bool,
    /// `--uastc_rdo_m`: disable RDO multithreading.
    pub rdo_no_multithreading: bool,
}

impl UASTCOptions {
    /// The tokens of each field, in declaration order.
    pub open spec fn runs(&self) -> Seq<Seq<Seq<char>>> {
        seq![
            named_run("--uastc_quality"@, self.quality),
            named_run("--uastc_rdo_l"@, self.rdo_lambda),
            named_run("--uastc_rdo_d"@, self.rdo_dictionary_size),
            named_run("--uastc_rdo_b"@, self.rdo_block_error_scale),
            named_run("--uastc_rdo_s"@, self.rdo_std_dev),
            flag_run(self.rdo_f, "--uastc_rdo_f"@),
            flag_run(self.rdo_no_multithreading, "--uastc_rdo_m"@),
        ]
    }

    /// The tokens of the options: every field's tokens, in declaration order.
    pub open spec fn tokens(&self) -> Seq<Seq<char>> {
        self.runs().flatten()
    }

    /// Appends the options' tokens.
    pub fn add_unnamed_to(&self, args: &mut ArgList)
        ensures
            final(args)@ == old(args)@ + self.tokens(),
    {
        let ghost base = args@;
        let ghost mut done: Seq<Seq<Seq<char>>> = seq![];
        proof { lemma_no_runs(base); }
        let ghost mut before = args@;
        add_named(args, "--uastc_quality", &self.quality);
        proof {
            lemma_push_run(base, done, before, named_run("--uastc_quality"@, self.quality), args@);
            done = done.push(named_run("--uastc_quality"@, self.quality));
            before = args@;
        }
        add_named(args, "--uastc_rdo_l", &self.rdo_lambda);
        proof {
            lemma_push_run(base, done, before, named_run("--uastc_rdo_l"@, self.rdo_lambda), args@);
            done = done.push(named_run("--uastc_rdo_l"@, self.rdo_lambda));
            before = args@;
        }
        add_named(args, "--uastc_rdo_d", &self.rdo_dictionary_size);
        proof {
            lemma_push_run(base, done, before, named_run("--uastc_rdo_d"@, self.rdo_dictionary_size), args@);
            done = done.push(named_run("--uastc_rdo_d"@, self.rdo_dictionary_size));
            before = args@;
        }
        add_named(args, "--uastc_rdo_b", &self.rdo_block_error_scale);
        proof {
            lemma_push_run(base, done, before, named_run("--uastc_rdo_b"@, self.rdo_block_error_scale), args@);
            done = done.push(named_run("--uastc_rdo_b"@, self.rdo_block_error_scale));
            before = args@;
        }
        add_named(args, "--uastc_rdo_s", &self.rdo_std_dev);
        proof {
            lemma_push_run(base, done, before, named_run("--uastc_rdo_s"@, self.rdo_std_dev), args@);
            done = done.push(named_run("--uastc_rdo_s"@, self.rdo_std_dev));
            before = args@;
        }
        add_flag(args, self.rdo_f, "--uastc_rdo_f");
        proof {
            lemma_push_run(base, done, before, flag_run(self.rdo_f, "--uastc_rdo_f"@), args@);
            done = done.push(flag_run(self.rdo_f, "--uastc_rdo_f"@));
            before = args@;
        }
        add_flag(args, self.rdo_no_multithreading, "--uastc_rdo_m");
        proof {
            lemma_push_run(base, done, before, flag_run(self.rdo_no_multithreading, "--uastc_rdo_m"@), args@);
            done = done.push(flag_run(self.rdo_no_multithreading, "--uastc_rdo_m"@));
            before = args@;
        }
        assert(done == self.runs());
    }
}

impl Default for UASTCOptions {
    fn default() -> (r: UASTCOptions)
        ensures
            r == (UASTCOptions {
                quality: None,
                rdo_lambda: None,
                rdo_dictionary_size: None,
                rdo_block_error_scale: None,
                rdo_std_dev: None,
                rdo_f: false,
                rdo_no_multithreading: false,
            }),
    {
        UASTCOptions {
            quality: None,
            rdo_lambda: None,
            rdo_dictionary_size: None,
            rdo_block_error_scale: None,
            rdo_std_dev: None,
            rdo_f: false,
            rdo_no_multithreading: false,
        }
    }
}

/// UASTC speed vs. quality level, numbered 0 (fastest) to 4 (very slow).
#[derive(Debug, Clone, Copy, Hash, PartialEq, Eq, Structural)]
pub enum UASTCQuality {
    Fastest,
    Faster,
    Default,
    Slower,
    VerySlow,
}

/// The message of a level number outside `0..=4`.
pub open spec fn quality_range_message() -> &'static str {
    "Only values 0..=4 are valid"
}

impl UASTCQuality {
    /// The level's number.
    pub open spec fn repr(&self) -> u8 {
        match self {
            UASTCQuality::Fastest => 0,
            UASTCQuality::Faster => 1,
            UASTCQuality::Default => 2,
            UASTCQuality::Slower => 3,
            UASTCQuality::VerySlow => 4,
        }
    }

    /// The level with number `v`, if there is one.
    pub open spec fn from_repr(v: u8) -> Option<UASTCQuality> {
        if v == 0 {
            Some(UASTCQuality::Fastest)
        } else if v == 1 {
            Some(UASTCQuality::Faster)
        } else if v == 2 {
            Some(UASTCQuality::Default)
        } else if v == 3 {
            Some(UASTCQuality::Slower)
        } else if v == 4 {
            Some(UASTCQuality::VerySlow)
        } else {
            None
        }
    }

    /// The level's number.
    pub fn as_u8(&self) -> (r: u8)
        ensures
            r == self.repr(),
    {
        match self {
            UASTCQuality::Fastest => 0,
            UASTCQuality::Faster => 1,
            UASTCQuality::Default => 2,
            UASTCQuality::Slower => 3,
            UASTCQuality::VerySlow => 4,
        }
    }

    /// The level with number `v`; numbers above 4 are refused.
    pub fn from_u8(v: u8) -> (r: Option<UASTCQuality>)
        ensures
            r == UASTCQuality::from_repr(v),
    {
        if v == 0 {
            Some(UASTCQuality::Fastest)
        } else if v == 1 {
            Some(UASTCQuality::Faster)
        } else if v == 2 {
            Some(UASTCQuality::Default)
        } else if v == 3 {
            Some(UASTCQuality::Slower)
        } else if v == 4 {
            Some(UASTCQuality::VerySlow)
        } else {
            None
        }
    }
}

/// Each of the five levels comes back from its number, and a number comes
/// back as a level exactly when it is at most 4.
pub proof fn lemma_quality_round_trip(q: UASTCQuality, v: u8)
    ensures
        UASTCQuality::from_repr(q.repr()) == Some(q),
        q.repr() <= 4,
        UASTCQuality::from_repr(v) is Some <==> v <= 4,
        UASTCQuality::from_repr(v) matches Some(p) ==> p.repr() == v,
{
}

impl TryFrom<u8> for UASTCQuality {
    type Error = &'static str;

    fn try_from(v: u8) -> (r: Result<UASTCQuality, &'static str>) {
        match UASTCQuality::from_u8(v) {
            Some(q) => Ok(q),
            None => Err("Only values 0..=4 are valid"),
        }
    }
}

impl vstd::std_specs::convert::TryFromSpecImpl<u8> for UASTCQuality {
    open spec fn obeys_try_from_spec() -> bool {
        true
    }

    open spec fn try_from_spec(v: u8) -> Result<UASTCQuality, &'static str> {
        match UASTCQuality::from_repr(v) {
            Some(q) => Ok(q),
            None => Err(quality_range_message()),
        }
    }
}

impl From<UASTCQuality> for u8 {
    fn from(q: UASTCQuality) -> (r: u8) {
        q.as_u8()
    }
}

impl vstd::std_specs::convert::FromSpecImpl<UASTCQuality> for u8 {
    open spec fn obeys_from_spec() -> bool {
        true
    }

    open spec fn from_spec(q: UASTCQuality) -> u8 {
        q.repr()
    }
}

impl ArgValue for UASTCQuality {
    open spec fn text(&self) -> Seq<char> {
        decimal(self.repr() as nat)
    }

    fn to_arg(&self) -> (r: String) {
        decimal_string(self.as_u8() as u64)
    }
}

/// The options' tokens are their fields' runs in declaration order; when
/// two option sets differ only in field `k`, everything rendered before and
/// after that field's run is the same for both.
pub proof fn lemma_uastc_order_preserved(a: UASTCOptions, b: UASTCOptions, k: int)
    requires
        0 <= k < 7,
        forall|i: int| 0 <= i < 7 && i != k ==> a.runs()[i] == b.runs()[i],
    ensures
        a.runs().len() == 7,
        a.tokens() == a.runs().take(k).flatten() + a.runs()[k] + a.runs().skip(k + 1).flatten(),
        b.tokens() == a.runs().take(k).flatten() + b.runs()[k] + a.runs().skip(k + 1).flatten(),
{
    lemma_change_one_run(a.runs(), b.runs(), k);
}

} // verus!
