//! The configuration aggregate: every option of the tool in one value.

use vstd::prelude::*;
use vstd::seq_lib::lemma_flatten_concat;

use crate::args::{
    add_flag, add_named, flag_run, lemma_change_one_run, lemma_no_runs, lemma_push_run,
    named_run, ArgList,
};
use crate::decimal::Decimal;
use crate::enc::Encoding;
use crate::filter::Filter;
use crate::swizzle::Swizzle;
use crate::target_type::TargetType;
use crate::xy::XY;
use crate::{OutputFormat, Primaries, TransferFunction, WMode};

verus! {

/// The number of options that a [`ToKtx`] renders, one run of tokens each.
pub const FIELD_COUNT: usize = 30;

/// The tokens of an optional encoding under option `flag`.
pub open spec fn encoding_run(flag: Seq<char>, e: Option<Encoding>) -> Seq<Seq<char>> {
    match e {
        Some(e) => e.named_tokens(flag),
        None => seq![],
    }
}

/// KTX texture converter settings: one field per option of the tool.
#[derive(Debug, Clone, PartialEq)]
pub struct ToKtx {
    /// `--2d`: create a 2D texture even when the image height is 1.
    pub two_dee: bool,
    /// `--automipmap`: request generation of a mipmap pyramid when the file is loaded.
    pub auto_mipmap: bool,
    /// `--cubemap`: the file is for a cubemap; the six faces are given in the order +X, -X, +Y, -Y, +Z, -Z.
    pub cubemap: bool,
    /// `--depth`: the file is for a 3D texture of this depth.
    pub depth: Option<u32>,
    /// `--genmipmap`: generate mipmaps for each input file.
    pub genmipmap: bool,
    /// `--filter`: filter to use when generating mipmaps.
    pub filter: Option<Filter>,
    /// `--fscale`: the filter scale to use.
    pub fscale: Option<Decimal>,
    /// `--wmode`: how to sample pixels near the image boundaries.
    pub wmode: Option<WMode>,
    /// `--layers`: the file is for an array texture with this many layers.
    pub layers: Option<u32>,
    /// `--levels`: the file is for a mipmap pyramid with this many levels.
    pub levels: Option<u32>,
    /// `--mipmap`: one input file is given explicitly for each mipmap level.
    pub mipmap: bool,
    /// `--nometadata`: do not write KTXorientation metadata.
    pub no_metadata: bool,
    /// `--nowarn`: silence warnings about transformations of input images.
    pub no_warn: bool,
    /// `--upper_left_maps_to_s0t0`: map the logical upper left corner of the image to s0,t0.
    pub upper_left_maps_to_s0t0: bool,
    /// `--lower_left_maps_to_s0t0`: map the logical lower left corner of the image to s0,t0.
    pub lower_left_maps_to_s0t0: bool,
    /// `--assign_oetf`: force the created texture to have this transfer function.
    pub assign_oetf: Option<TransferFunction>,
    /// `--assign_primaries`: force the created texture to have these primaries.
    pub assign_primaries: Option<Primaries>,
    /// `--convert_oetf`: convert the input images to this transfer function.
    pub convert_oetf: Option<TransferFunction>,
    /// `--swizzle`: swizzle metadata for the created file.
    pub swizzle: Option<Swizzle>,
    /// `--target_type`: number of components in the created texture.
    pub target_type: Option<TargetType>,
    /// `--resize`: resize images to width x height.
    pub resize: Option<XY<u32>>,
    /// `--scale`: scale images by this factor as they are read.
    pub scale: Option<Decimal>,
    /// The container format: `--t2` for KTX2, nothing for KTX.
    pub output_format: OutputFormat,
    /// `--encode`: the encoder and its options.
    pub encoding: Option<Encoding>,
    /// `--input_swizzle`: swizzle the input components.
    pub input_swizzle: Option<Swizzle>,
    /// `--normal_mode`: treat the input as a normal map.
    pub normal_mode: bool,
    /// `--normalize`: normalize input normals to unit length.
    pub normalise: bool,
    /// `--no_sse`: forbid use of the SSE instruction set.
    pub no_sse: bool,
    /// `--zcmp`: supercompress the data with Zstandard at this level.
    pub zcmp: Option<u8>,
    /// `--threads`: number of threads to use during compression.
    pub threads: Option<u16>,
    /// Path to the tool; when absent, `toktx` is looked up on the search path.
    pub path_to_toktx: Option<String>,
}

impl ToKtx {
    /// The tokens of each option, in declaration order.
    pub open spec fn runs(&self) -> Seq<Seq<Seq<char>>> {
        self.runs_first() + self.runs_second() + self.runs_third() + self.runs_fourth()
    }

    /// The tokens of options 0 to 7, in declaration order.
    pub open spec fn runs_first(&self) -> Seq<Seq<Seq<char>>> {
        seq![
            flag_run(self.two_dee, "--2d"@),
            flag_run(self.auto_mipmap, "--automipmap"@),
            flag_run(self.cubemap, "--cubemap"@),
            named_run("--depth"@, self.depth),
            flag_run(self.genmipmap, "--genmipmap"@),
            named_run("--filter"@, self.filter),
            named_run("--fscale"@, self.fscale),
            named_run("--wmode"@, self.wmode),
        ]
    }

    /// The tokens of options 8 to 15, in declaration order.
    pub open spec fn runs_second(&self) -> Seq<Seq<Seq<char>>> {
        seq![
            named_run("--layers"@, self.layers),
            named_run("--levels"@, self.levels),
            flag_run(self.mipmap, "--mipmap"@),
            flag_run(self.no_metadata, "--nometadata"@),
            flag_run(self.no_warn, "--nowarn"@),
            flag_run(self.upper_left_maps_to_s0t0, "--upper_left_maps_to_s0t0"@),
            flag_run(self.lower_left_maps_to_s0t0, "--lower_left_maps_to_s0t0"@),
            named_run("--assign_oetf"@, self.assign_oetf),
        ]
    }

    /// The tokens of options 16 to 23, in declaration order.
    pub open spec fn runs_third(&self) -> Seq<Seq<Seq<char>>> {
        seq![
            named_run("--assign_primaries"@, self.assign_primaries),
            named_run("--convert_oetf"@, self.convert_oetf),
            named_run("--swizzle"@, self.swizzle),
            named_run("--target_type"@, self.target_type),
            named_run("--resize"@, self.resize),
            named_run("--scale"@, self.scale),
            self.output_format.arg_tokens(),
            encoding_run("--encode"@, self.encoding),
        ]
    }

    /// The tokens of options 24 to 29, in declaration order.
    pub open spec fn runs_fourth(&self) -> Seq<Seq<Seq<char>>> {
        seq![
            named_run("--input_swizzle"@, self.input_swizzle),
            flag_run(self.normal_mode, "--normal_mode"@),
            flag_run(self.normalise, "--normalize"@),
            flag_run(self.no_sse, "--no_sse"@),
            named_run("--zcmp"@, self.zcmp),
            named_run("--threads"@, self.threads),
        ]
    }

    /// The configuration's tokens: every option's tokens, in declaration order.
    pub open spec fn tokens(&self) -> Seq<Seq<char>> {
        self.runs().flatten()
    }

    fn add_first_to(&self, args: &mut ArgList)
        ensures
            final(args)@ == old(args)@ + self.runs_first().flatten(),
    {
        let ghost base = args@;
        let ghost mut done: Seq<Seq<Seq<char>>> = seq![];
        proof { lemma_no_runs(base); }
        let ghost mut before = args@;
        add_flag(args, self.two_dee, "--2d");
        proof {
            lemma_push_run(base, done, before, flag_run(self.two_dee, "--2d"@), args@);
            done = done.push(flag_run(self.two_dee, "--2d"@));
            before = args@;
        }
        add_flag(args, self.auto_mipmap, "--automipmap");
        proof {
            lemma_push_run(base, done, before, flag_run(self.auto_mipmap, "--automipmap"@), args@);
            done = done.push(flag_run(self.auto_mipmap, "--automipmap"@));
            before = args@;
        }
        add_flag(args, self.cubemap, "--cubemap");
        proof {
            lemma_push_run(base, done, before, flag_run(self.cubemap, "--cubemap"@), args@);
            done = done.push(flag_run(self.cubemap, "--cubemap"@));
            before = args@;
        }
        add_named(args, "--depth", &self.depth);
        proof {
            lemma_push_run(base, done, before, named_run("--depth"@, self.depth), args@);
            done = done.push(named_run("--depth"@, self.depth));
            before = args@;
        }
        add_flag(args, self.genmipmap, "--genmipmap");
        proof {
            lemma_push_run(base, done, before, flag_run(self.genmipmap, "--genmipmap"@), args@);
            done = done.push(flag_run(self.genmipmap, "--genmipmap"@));
            before = args@;
        }
        add_named(args, "--filter", &self.filter);
        proof {
            lemma_push_run(base, done, before, named_run("--filter"@, self.filter), args@);
            done = done.push(named_run("--filter"@, self.filter));
            before = args@;
        }
        add_named(args, "--fscale", &self.fscale);
        proof {
            lemma_push_run(base, done, before, named_run("--fscale"@, self.fscale), args@);
            done = done.push(named_run("--fscale"@, self.fscale));
            before = args@;
        }
        add_named(args, "--wmode", &self.wmode);
        proof {
            lemma_push_run(base, done, before, named_run("--wmode"@, self.wmode), args@);
            done = done.push(named_run("--wmode"@, self.wmode));
            before = args@;
        }
        assert(done == self.runs_first());
    }

    fn add_second_to(&self, args: &mut ArgList)
        ensures
            final(args)@ == old(args)@ + self.runs_second().flatten(),
    {
        let ghost base = args@;
        let ghost mut done: Seq<Seq<Seq<char>>> = seq![];
        proof { lemma_no_runs(base); }
        let ghost mut before = args@;
        add_named(args, "--layers", &self.layers);
        proof {
            lemma_push_run(base, done, before, named_run("--layers"@, self.layers), args@);
            done = done.push(named_run("--layers"@, self.layers));
            before = args@;
        }
        add_named(args, "--levels", &self.levels);
        proof {
            lemma_push_run(base, done, before, named_run("--levels"@, self.levels), args@);
            done = done.push(named_run("--levels"@, self.levels));
            before = args@;
        }
        add_flag(args, self.mipmap, "--mipmap");
        proof {
            lemma_push_run(base, done, before, flag_run(self.mipmap, "--mipmap"@), args@);
            done = done.push(flag_run(self.mipmap, "--mipmap"@));
            before = args@;
        }
        add_flag(args, self.no_metadata, "--nometadata");
        proof {
            lemma_push_run(base, done, before, flag_run(self.no_metadata, "--nometadata"@), args@);
            done = done.push(flag_run(self.no_metadata, "--nometadata"@));
            before = args@;
        }
        add_flag(args, self.no_warn, "--nowarn");
        proof {
            lemma_push_run(base, done, before, flag_run(self.no_warn, "--nowarn"@), args@);
            done = done.push(flag_run(self.no_warn, "--nowarn"@));
            before = args@;
        }
        add_flag(args, self.upper_left_maps_to_s0t0, "--upper_left_maps_to_s0t0");
        proof {
            lemma_push_run(base, done, before, flag_run(self.upper_left_maps_to_s0t0, "--upper_left_maps_to_s0t0"@), args@);
            done = done.push(flag_run(self.upper_left_maps_to_s0t0, "--upper_left_maps_to_s0t0"@));
            before = args@;
        }
        add_flag(args, self.lower_left_maps_to_s0t0, "--lower_left_maps_to_s0t0");
        proof {
            lemma_push_run(base, done, before, flag_run(self.lower_left_maps_to_s0t0, "--lower_left_maps_to_s0t0"@), args@);
            done = done.push(flag_run(self.lower_left_maps_to_s0t0, "--lower_left_maps_to_s0t0"@));
            before = args@;
        }
        add_named(args, "--assign_oetf", &self.assign_oetf);
        proof {
            lemma_push_run(base, done, before, named_run("--assign_oetf"@, self.assign_oetf), args@);
            done = done.push(named_run("--assign_oetf"@, self.assign_oetf));
            before = args@;
        }
        assert(done == self.runs_second());
    }

    fn add_third_to(&self, args: &mut ArgList)
        ensures
            final(args)@ == old(args)@ + self.runs_third().flatten(),
    {
        let ghost base = args@;
        let ghost mut done: Seq<Seq<Seq<char>>> = seq![];
        proof { lemma_no_runs(base); }
        let ghost mut before = args@;
        add_named(args, "--assign_primaries", &self.assign_primaries);
        proof {
            lemma_push_run(base, done, before, named_run("--assign_primaries"@, self.assign_primaries), args@);
            done = done.push(named_run("--assign_primaries"@, self.assign_primaries));
            before = args@;
        }
        add_named(args, "--convert_oetf", &self.convert_oetf);
        proof {
            lemma_push_run(base, done, before, named_run("--convert_oetf"@, self.convert_oetf), args@);
            done = done.push(named_run("--convert_oetf"@, self.convert_oetf));
            before = args@;
        }
        add_named(args, "--swizzle", &self.swizzle);
        proof {
            lemma_push_run(base, done, before, named_run("--swizzle"@, self.swizzle), args@);
            done = done.push(named_run("--swizzle"@, self.swizzle));
            before = args@;
        }
        add_named(args, "--target_type", &self.target_type);
        proof {
            lemma_push_run(base, done, before, named_run("--target_type"@, self.target_type), args@);
            done = done.push(named_run("--target_type"@, self.target_type));
            before = args@;
        }
        add_named(args, "--resize", &self.resize);
        proof {
            lemma_push_run(base, done, before, named_run("--resize"@, self.resize), args@);
            done = done.push(named_run("--resize"@, self.resize));
            before = args@;
        }
        add_named(args, "--scale", &self.scale);
        proof {
            lemma_push_run(base, done, before, named_run("--scale"@, self.scale), args@);
            done = done.push(named_run("--scale"@, self.scale));
            before = args@;
        }
        self.output_format.add_unnamed_to(args);
        proof {
            lemma_push_run(base, done, before, self.output_format.arg_tokens(), args@);
            done = done.push(self.output_format.arg_tokens());
            before = args@;
        }
        match &self.encoding {
            Some(e) => e.add_to("--encode", args),
            None => {},
        }
        proof {
            lemma_push_run(base, done, before, encoding_run("--encode"@, self.encoding), args@);
            done = done.push(encoding_run("--encode"@, self.encoding));
            before = args@;
        }
        assert(done == self.runs_third());
    }

    fn add_fourth_to(&self, args: &mut ArgList)
        ensures
            final(args)@ == old(args)@ + self.runs_fourth().flatten(),
    {
        let ghost base = args@;
        let ghost mut done: Seq<Seq<Seq<char>>> = seq![];
        proof { lemma_no_runs(base); }
        let ghost mut before = args@;
        add_named(args, "--input_swizzle", &self.input_swizzle);
        proof {
            lemma_push_run(base, done, before, named_run("--input_swizzle"@, self.input_swizzle), args@);
            done = done.push(named_run("--input_swizzle"@, self.input_swizzle));
            before = args@;
        }
        add_flag(args, self.normal_mode, "--normal_mode");
        proof {
            lemma_push_run(base, done, before, flag_run(self.normal_mode, "--normal_mode"@), args@);
            done = done.push(flag_run(self.normal_mode, "--normal_mode"@));
            before = args@;
        }
        add_flag(args, self.normalise, "--normalize");
        proof {
            lemma_push_run(base, done, before, flag_run(self.normalise, "--normalize"@), args@);
            done = done.push(flag_run(self.normalise, "--normalize"@));
            before = args@;
        }
        add_flag(args, self.no_sse, "--no_sse");
        proof {
            lemma_push_run(base, done, before, flag_run(self.no_sse, "--no_sse"@), args@);
            done = done.push(flag_run(self.no_sse, "--no_sse"@));
            before = args@;
        }
        add_named(args, "--zcmp", &self.zcmp);
        proof {
            lemma_push_run(base, done, before, named_run("--zcmp"@, self.zcmp), args@);
            done = done.push(named_run("--zcmp"@, self.zcmp));
            before = args@;
        }
        add_named(args, "--threads", &self.threads);
        proof {
            lemma_push_run(base, done, before, named_run("--threads"@, self.threads), args@);
            done = done.push(named_run("--threads"@, self.threads));
            before = args@;
        }
        assert(done == self.runs_fourth());
    }

    /// Appends the configuration's tokens.
    pub fn add_unnamed_to(&self, args: &mut ArgList)
        ensures
            final(args)@ == old(args)@ + self.tokens(),
    {
        self.add_first_to(args);
        self.add_second_to(args);
        self.add_third_to(args);
        self.add_fourth_to(args);
        proof {
            let (a, b, c, d) = (self.runs_first(), self.runs_second(), self.runs_third(), self.runs_fourth());
            lemma_flatten_concat(a, b);
            lemma_flatten_concat(a + b, c);
            lemma_flatten_concat(a + b + c, d);
        }
        assert(args@ =~= old(args)@ + self.tokens());
    }

    /// The configuration's tokens as a new list.
    pub fn to_args(&self) -> (r: ArgList)
        ensures
            r@ == self.tokens(),
    {
        let mut args = ArgList::new();
        self.add_unnamed_to(&mut args);
        assert(args@ =~= self.tokens());
        args
    }

    /// The default settings: no option set, KTX2 output, the tool found on the search path.
    pub open spec fn spec_default() -> ToKtx {
        ToKtx {
            two_dee: false,
            auto_mipmap: false,
            cubemap: false,
            depth: None,
            genmipmap: false,
            filter: None,
            fscale: None,
            wmode: None,
            layers: None,
            levels: None,
            mipmap: false,
            no_metadata: false,
            no_warn: false,
            upper_left_maps_to_s0t0: false,
            lower_left_maps_to_s0t0: false,
            assign_oetf: None,
            assign_primaries: None,
            convert_oetf: None,
            swizzle: None,
            target_type: None,
            resize: None,
            scale: None,
            output_format: OutputFormat::KTX2,
            encoding: None,
            input_swizzle: None,
            normal_mode: false,
            normalise: false,
            no_sse: false,
            zcmp: None,
            threads: None,
            path_to_toktx: None,
        }
    }
}

impl Default for ToKtx {
    fn default() -> (r: ToKtx)
        ensures
            r == ToKtx::spec_default(),
    {
        ToKtx {
            two_dee: false,
            auto_mipmap: false,
            cubemap: false,
            depth: None,
            genmipmap: false,
            filter: None,
            fscale: None,
            wmode: None,
            layers: None,
            levels: None,
            mipmap: false,
            no_metadata: false,
            no_warn: false,
            upper_left_maps_to_s0t0: false,
            lower_left_maps_to_s0t0: false,
            assign_oetf: None,
            assign_primaries: None,
            convert_oetf: None,
            swizzle: None,
            target_type: None,
            resize: None,
            scale: None,
            output_format: OutputFormat::KTX2,
            encoding: None,
            input_swizzle: None,
            normal_mode: false,
            normalise: false,
            no_sse: false,
            zcmp: None,
            threads: None,
            path_to_toktx: None,
        }
    }
}

/// Rendering depends on the configuration alone: two configurations with
/// the same field values render to the same tokens.
pub proof fn lemma_render_deterministic(a: ToKtx, b: ToKtx)
    requires
        a == b,
    ensures
        a.tokens() == b.tokens(),
{
}

/// The tokens are the options' runs in declaration order, one run per
/// option; when two configurations differ only in option `k`, everything
/// rendered before and after that option's run is the same for both.
pub proof fn lemma_order_preserved(a: ToKtx, b: ToKtx, k: int)
    requires
        0 <= k < FIELD_COUNT,
        forall|i: int| 0 <= i < FIELD_COUNT && i != k ==> a.runs()[i] == b.runs()[i],
    ensures
        a.runs().len() == FIELD_COUNT,
        a.tokens() == a.runs().take(k).flatten() + a.runs()[k] + a.runs().skip(k + 1).flatten(),
        b.tokens() == a.runs().take(k).flatten() + b.runs()[k] + a.runs().skip(k + 1).flatten(),
{
    lemma_change_one_run(a.runs(), b.runs(), k);
}

} // verus!
