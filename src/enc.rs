//! Encoders.

use vstd::prelude::*;

use crate::args::ArgList;

pub mod astc;
pub mod etc1s;
pub mod uastc;

pub use astc::{ASTCBlockDimension, ASTCMode, ASTCOptions};
pub use etc1s::ETC1SOptions;
pub use uastc::{UASTCOptions, UASTCQuality};

verus! {

/// Texture encoding: one of three encoders, each with its own options.
#[derive(Debug, Clone, PartialEq)]
pub enum Encoding {
    /// High-quality ASTC format.
    ASTC(ASTCOptions),
    /// Supercompress the image data with ETC1S / BasisLZ.
    ETC1S(ETC1SOptions),
    /// High-quality transcodable UASTC format.
    UASTC(UASTCOptions),
}

impl Encoding {
    /// [`ASTC`](Encoding::ASTC) with default options.
    pub fn astc() -> (r: Encoding)
        ensures
            r == Encoding::ASTC(
                ASTCOptions { block_dimension: None, mode: None, quality: None, perceptual: false },
            ),
    {
        Encoding::ASTC(ASTCOptions::default())
    }

    /// [`ETC1S`](Encoding::ETC1S) with default options.
    pub fn etc1s() -> (r: Encoding)
        ensures
            r == Encoding::ETC1S(
                ETC1SOptions {
                    compression_level: None,
                    quality_level: None,
                    max_endpoints: None,
                    endpoint_rdo_threshold: None,
                    max_selectors: None,
                    selector_rdo_threshold: None,
                    no_endpoint_rdo: false,
                    no_selector_rdo: false,
                },
            ),
    {
        Encoding::ETC1S(ETC1SOptions::default())
    }

    /// [`UASTC`](Encoding::UASTC) with default options.
    pub fn uastc() -> (r: Encoding)
        ensures
            r == Encoding::UASTC(
                UASTCOptions {
                    quality: None,
                    rdo_lambda: None,
                    rdo_dictionary_size: None,
                    rdo_block_error_scale: None,
                    rdo_std_dev: None,
                    rdo_f: false,
                    rdo_no_multithreading: false,
                },
            ),
    {
        Encoding::UASTC(UASTCOptions::default())
    }

    /// The encoder's name as the tool spells it.
    pub open spec fn name(&self) -> Seq<char> {
        match self {
            Encoding::ASTC(_) => "astc"@,
            Encoding::ETC1S(_) => "etc1s"@,
            Encoding::UASTC(_) => "uastc"@,
        }
    }

    /// The encoder's name as the tool spells it.
    pub fn as_str(&self) -> (r: &'static str)
        ensures
            r@ == self.name(),
    {
        match self {
            Encoding::ASTC(_) => "astc",
            Encoding::ETC1S(_) => "etc1s",
            Encoding::UASTC(_) => "uastc",
        }
    }

    /// The tokens of the selected encoder's options.
    pub open spec fn option_tokens(&self) -> Seq<Seq<char>> {
        match self {
            Encoding::ASTC(o) => o.tokens(),
            Encoding::ETC1S(o) => o.tokens(),
            Encoding::UASTC(o) => o.tokens(),
        }
    }

    /// The tokens of the encoding under option `flag`: the flag, the
    /// encoder's name, then its options' tokens.
    pub open spec fn named_tokens(&self, flag: Seq<char>) -> Seq<Seq<char>> {
        seq![flag, self.name()] + self.option_tokens()
    }

    /// Appends the flag, the encoder's name and its options' tokens.
    pub fn add_to(&self, flag: &str, args: &mut ArgList)
        ensures
            final(args)@ == old(args)@ + self.named_tokens(flag@),
    {
        args.push_str(flag);
        args.push_str(self.as_str());
        self.add_unnamed_to(args);
        assert(args@ =~= old(args)@ + self.named_tokens(flag@));
    }

    /// Appends the tokens of the selected encoder's options.
    pub fn add_unnamed_to(&self, args: &mut ArgList)
        ensures
            final(args)@ == old(args)@ + self.option_tokens(),
    {
        match self {
            Encoding::ASTC(o) => o.add_unnamed_to(args),
            Encoding::ETC1S(o) => o.add_unnamed_to(args),
            Encoding::UASTC(o) => o.add_unnamed_to(args),
        }
    }
}

} // verus!
