//! ASTC encoder options.

use vstd::prelude::*;
use vstd::string::StringExecFns;

use crate::args::{
    add_flag, add_named, flag_run, lemma_change_one_run, lemma_no_runs, lemma_push_run, named_run,
    ArgList, ArgValue,
};
use crate::xy::{XY, XYZ};

verus! {

/// High-quality ASTC format options.
#[derive(Debug, Clone, Hash, PartialEq, Eq)]
pub struct ASTCOptions {
    /// `--astc_blk_d`: block dimension, e.g. `6x5` for 2D or `6x6x6` for 3D.
    pub block_dimension: Option<ASTCBlockDimension>,
    /// `--astc_mode`: LDR or HDR encoding.
    pub mode: Option<ASTCMode>,
    /// `--astc_quality`: quality level, from fastest (0) to exhaustive (100).
    pub quality: Option<u8>,
    /// `--astc_perceptual`: optimise for perceptual error.
    pub perceptual: bool,
}

impl ASTCOptions {
    /// `--astc_quality` preset.
    pub const QUALITY_FASTEST: u8 = 0;

    /// `--astc_quality` preset.
    pub const QUALITY_FAST: u8 = 10;

    /// `--astc_quality` preset.
    pub const QUALITY_MEDIUM: u8 = 60;

    /// `--astc_quality` preset.
    pub const QUALITY_THOROUGH: u8 = 98;

    /// `--astc_quality` preset.
    pub const QUALITY_EXHAUSTIVE: u8 = 100;

    /// The tokens of each field, in declaration order.
    pub open spec fn runs(&self) -> Seq<Seq<Seq<char>>> {
        seq![
            named_run("--astc_blk_d"@, self.block_dimension),
            named_run("--astc_mode"@, self.mode),
            named_run("--astc_quality"@, self.quality),
            flag_run(self.perceptual, "--astc_perceptual"@),
        ]
    }

    /// The tokens of the options: every field's tokens, in declaration order.
    pub open spec fn tokens(&self) -> Seq<Seq<char>> {
        self.runs().flatten()
    }

    /// Appends the options' tokens.
    pub fn add_unnamed_to(&self, args: &mut ArgList)
        ensures
            final(args)@ == old(args)@ + self.tokens(),
    {
        let ghost base = args@;
        let ghost mut done: Seq<Seq<Seq<char>>> = seq![];
        proof { lemma_no_runs(base); }
        let ghost mut before = args@;
        add_named(args, "--astc_blk_d", &self.block_dimension);
        proof {
            lemma_push_run(base, done, before, named_run("--astc_blk_d"@, self.block_dimension), args@);
            done = done.push(named_run("--astc_blk_d"@, self.block_dimension));
            before = args@;
        }
        add_named(args, "--astc_mode", &self.mode);
        proof {
            lemma_push_run(base, done, before, named_run("--astc_mode"@, self.mode), args@);
            done = done.push(named_run("--astc_mode"@, self.mode));
            before = args@;
        }
        add_named(args, "--astc_quality", &self.quality);
        proof {
            lemma_push_run(base, done, before, named_run("--astc_quality"@, self.quality), args@);
            done = done.push(named_run("--astc_quality"@, self.quality));
            before = args@;
        }
        add_flag(args, self.perceptual, "--astc_perceptual");
        proof {
            lemma_push_run(base, done, before, flag_run(self.perceptual, "--astc_perceptual"@), args@);
            done = done.push(flag_run(self.perceptual, "--astc_perceptual"@));
            before = args@;
        }
        assert(done == self.runs());
    }
}

impl Default for ASTCOptions {
    fn default() -> (r: ASTCOptions)
        ensures
            r == (ASTCOptions { block_dimension: None, mode: None, quality: None, perceptual: false }),
    {
        ASTCOptions { block_dimension: None, mode: None, quality: None, perceptual: false }
    }
}

/// ASTC block dimension, 3D or 2D.
#[derive(Debug, Clone, Copy, Hash, PartialEq, Eq)]
pub enum ASTCBlockDimension {
    XYZ(XYZ<u8>),
    XY(XY<u8>),
}

impl ArgValue for ASTCBlockDimension {
    open spec fn text(&self) -> Seq<char> {
        match self {
            ASTCBlockDimension::XYZ(d) => d.text(),
            ASTCBlockDimension::XY(d) => d.text(),
        }
    }

    fn to_arg(&self) -> (r: String) {
        match self {
            ASTCBlockDimension::XYZ(d) => d.to_string(),
            ASTCBlockDimension::XY(d) => d.to_string(),
        }
    }
}

impl ASTCBlockDimension {
    /// The dimension written with `x` between its components.
    pub fn to_string(&self) -> (r: String)
        ensures
            r@ == self.text(),
    {
        self.to_arg()
    }
}

impl From<XY<u8>> for ASTCBlockDimension {
    fn from(v: XY<u8>) -> (r: ASTCBlockDimension) {
        ASTCBlockDimension::XY(v)
    }
}

impl vstd::std_specs::convert::FromSpecImpl<XY<u8>> for ASTCBlockDimension {
    open spec fn obeys_from_spec() -> bool {
        true
    }

    open spec fn from_spec(v: XY<u8>) -> ASTCBlockDimension {
        ASTCBlockDimension::XY(v)
    }
}

impl From<XYZ<u8>> for ASTCBlockDimension {
    fn from(v: XYZ<u8>) -> (r: ASTCBlockDimension) {
        ASTCBlockDimension::XYZ(v)
    }
}

impl vstd::std_specs::convert::FromSpecImpl<XYZ<u8>> for ASTCBlockDimension {
    open spec fn obeys_from_spec() -> bool {
        true
    }

    open spec fn from_spec(v: XYZ<u8>) -> ASTCBlockDimension {
        ASTCBlockDimension::XYZ(v)
    }
}

/// ASTC encoding mode.
#[derive(Debug, Clone, Copy, Hash, PartialEq, Eq, Structural)]
pub enum ASTCMode {
    Ldr,
    Hdr,
}

impl ASTCMode {
    /// The mode's token.
    pub open spec fn name(&self) -> Seq<char> {
        match self {
            ASTCMode::Ldr => "ldr"@,
            ASTCMode::Hdr => "hdr"@,
        }
    }

    /// The mode's token.
    pub fn as_str(&self) -> (r: &'static str)
        ensures
            r@ == self.name(),
    {
        match self {
            ASTCMode::Ldr => "ldr",
            ASTCMode::Hdr => "hdr",
        }
    }
}

impl ArgValue for ASTCMode {
    open spec fn text(&self) -> Seq<char> {
        self.name()
    }

    fn to_arg(&self) -> (r: String) {
        String::from_str(self.as_str())
    }
}

/// The options' tokens are their fields' runs in declaration order; when
/// two option sets differ only in field `k`, everything rendered before and
/// after that field's run is the same for both.
pub proof fn lemma_astc_order_preserved(a: ASTCOptions, b: ASTCOptions, k: int)
    requires
        0 <= k < 4,
        forall|i: int| 0 <= i < 4 && i != k ==> a.runs()[i] == b.runs()[i],
    ensures
        a.runs().len() == 4,
        a.tokens() == a.runs().take(k).flatten() + a.runs()[k] + a.runs().skip(k + 1).flatten(),
        b.tokens() == a.runs().take(k).flatten() + b.runs()[k] + a.runs().skip(k + 1).flatten(),
{
    lemma_change_one_run(a.runs(), b.runs(), k);
}

} // verus!
