//! Programmatic interface for the `toktx` texture conversion tool.
//!
//! A [`ToKtx`] value mirrors the tool's command-line options. The library
//! renders it to an ordered argument list, builds the full invocation for a
//! conversion and interprets what the process reported back.

pub mod args;
pub mod conv;
pub mod decimal;
pub mod enc;
pub mod filter;
pub mod swizzle;
pub mod target_type;
pub mod toktx;
pub mod xy;

pub use args::ArgList;
pub use conv::{Destination, ExitStatus, Invocation, ProcessOutput, ToKtxError, ToKtxResult};
pub use decimal::Decimal;
pub use filter::Filter;
pub use swizzle::{Swizzle, SwizzleChar};
pub use target_type::TargetType;
pub use toktx::ToKtx;
pub use xy::{Component, XY, XYZ};

use vstd::prelude::*;
use vstd::string::StringExecFns;

use args::ArgValue;

verus! {

/// Colour primaries that can be assigned to the created texture.
#[derive(Debug, Clone, Copy, Hash, PartialEq, Eq, Structural)]
pub enum Primaries {
    Bt709,
    Srgb,
    /// No primaries: the tool's `none`.
    Unspecified,
}

impl Primaries {
    /// The value's token.
    pub open spec fn name(&self) -> Seq<char> {
        match self {
            Primaries::Bt709 => "bt709"@,
            Primaries::Srgb => "srgb"@,
            Primaries::Unspecified => "none"@,
        }
    }

    /// The value's token.
    pub fn as_str(&self) -> (r: &'static str)
        ensures
            r@ == self.name(),
    {
        match self {
            Primaries::Bt709 => "bt709",
            Primaries::Srgb => "srgb",
            Primaries::Unspecified => "none",
        }
    }
}

/// How to sample pixels near the image boundaries.
#[derive(Debug, Clone, Copy, Hash, PartialEq, Eq, Structural)]
pub enum WMode {
    Wrap,
    Reflect,
    Clamp,
}

impl WMode {
    /// The value's token.
    pub open spec fn name(&self) -> Seq<char> {
        match self {
            WMode::Wrap => "wrap"@,
            WMode::Reflect => "reflect"@,
            WMode::Clamp => "clamp"@,
        }
    }

    /// The value's token.
    pub fn as_str(&self) -> (r: &'static str)
        ensures
            r@ == self.name(),
    {
        match self {
            WMode::Wrap => "wrap",
            WMode::Reflect => "reflect",
            WMode::Clamp => "clamp",
        }
    }
}

/// A transfer function (OETF).
#[derive(Debug, Clone, Copy, Hash, PartialEq, Eq, Structural)]
pub enum TransferFunction {
    Linear,
    Srgb,
}

impl TransferFunction {
    /// The value's token.
    pub open spec fn name(&self) -> Seq<char> {
        match self {
            TransferFunction::Linear => "linear"@,
            TransferFunction::Srgb => "srgb"@,
        }
    }

    /// The value's token.
    pub fn as_str(&self) -> (r: &'static str)
        ensures
            r@ == self.name(),
    {
        match self {
            TransferFunction::Linear => "linear",
            TransferFunction::Srgb => "srgb",
        }
    }
}

/// The container format written by the tool.
#[derive(Debug, Clone, Copy, Hash, PartialEq, Eq, Structural)]
pub enum OutputFormat {
    KTX,
    KTX2,
}

impl OutputFormat {
    /// The format's name.
    pub open spec fn name(&self) -> Seq<char> {
        match self {
            OutputFormat::KTX => "ktx"@,
            OutputFormat::KTX2 => "ktx2"@,
        }
    }

    /// The format's name.
    pub fn as_str(&self) -> (r: &'static str)
        ensures
            r@ == self.name(),
    {
        match self {
            OutputFormat::KTX => "ktx",
            OutputFormat::KTX2 => "ktx2",
        }
    }

    /// The tokens that select the format: the tool writes KTX unless told
    /// `--t2`, whatever name the option is given.
    pub open spec fn arg_tokens(&self) -> Seq<Seq<char>> {
        match self {
            OutputFormat::KTX => seq![],
            OutputFormat::KTX2 => seq!["--t2"@],
        }
    }

    /// Appends the tokens that select the format.
    pub fn add_unnamed_to(&self, args: &mut ArgList)
        ensures
            final(args)@ == old(args)@ + self.arg_tokens(),
    {
        match self {
            OutputFormat::KTX => {
                assert(args@ =~= old(args)@ + self.arg_tokens());
            },
            OutputFormat::KTX2 => {
                args.push_str("--t2");
                assert(args@ =~= old(args)@ + self.arg_tokens());
            },
        }
    }
}

impl Default for OutputFormat {
    fn default() -> (r: OutputFormat)
        ensures
            r == OutputFormat::KTX2,
    {
        OutputFormat::KTX2
    }
}

impl ArgValue for Primaries {
    open spec fn text(&self) -> Seq<char> {
        self.name()
    }

    fn to_arg(&self) -> (r: String) {
        String::from_str(self.as_str())
    }
}

impl ArgValue for WMode {
    open spec fn text(&self) -> Seq<char> {
        self.name()
    }

    fn to_arg(&self) -> (r: String) {
        String::from_str(self.as_str())
    }
}

impl ArgValue for TransferFunction {
    open spec fn text(&self) -> Seq<char> {
        self.name()
    }

    fn to_arg(&self) -> (r: String) {
        String::from_str(self.as_str())
    }
}

} // verus!
