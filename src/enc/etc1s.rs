//! ETC1S / BasisLZ encoder options.

use vstd::prelude::*;

use crate::args::{
    add_flag, add_named, flag_run, lemma_change_one_run, lemma_no_runs, lemma_push_run, named_run,
    ArgList,
};
use crate::decimal::Decimal;

verus! {

/// ETC1S / BasisLZ supercompression options.
#[derive(Debug, Clone, PartialEq)]
pub struct ETC1SOptions {
    /// `--clevel`: compression level, an encoding speed vs. quality tradeoff in `[0,5]`.
    pub compression_level: Option<Decimal>,
    /// `--qlevel`: quality level in `[1,255]`.
    pub quality_level: Option<u8>,
    /// `--max_endpoints`: maximum number of color endpoint clusters.
    pub max_endpoints: Option<u16>,
    /// `--endpoint_rdo_threshold`: endpoint RDO quality threshold.
    pub endpoint_rdo_threshold: Option<Decimal>,
    /// `--max_selectors`: maximum number of color selector clusters.
    pub max_selectors: Option<u16>,
    /// `--selector_rdo_threshold`: selector RDO quality threshold.
    pub selector_rdo_threshold: Option<Decimal>,
    /// `--no_endpoint_rdo`: disable endpoint rate distortion optimizations.
    pub no_endpoint_rdo: bool,
    /// `--no_selector_rdo`: disable selector rate distortion optimizations.
    pub no_selector_rdo: bool,
}

impl ETC1SOptions {
    /// The tokens of each field, in declaration order.
    pub open spec fn runs(&self) -> Seq<Seq<Seq<char>>> {
        seq![
            named_run("--clevel"@, self.compression_level),
            named_run("--qlevel"@, self.quality_level),
            named_run("--max_endpoints"@, self.max_endpoints),
            named_run("--endpoint_rdo_threshold"@, self.endpoint_rdo_threshold),
            named_run("--max_selectors"@, self.max_selectors),
            named_run("--selector_rdo_threshold"@, self.selector_rdo_threshold),
            flag_run(self.no_endpoint_rdo, "--no_endpoint_rdo"@),
            flag_run(self.no_selector_rdo, "--no_selector_rdo"@),
        ]
    }

    /// The tokens of the options: every field's tokens, in declaration order.
    pub open spec fn tokens(&self) -> Seq<Seq<char>> {
        self.runs().flatten()
    }

    /// Appends the options' tokens.
    pub fn add_unnamed_to(&self, args: &mut ArgList)
        ensures
            final(args)@ == old(args)@ + self.tokens(),
    {
        let ghost base = args@;
        let ghost mut done: Seq<Seq<Seq<char>>> = seq![];
        proof { lemma_no_runs(base); }
        let ghost mut before = args@;
        add_named(args, "--clevel", &self.compression_level);
        proof {
            lemma_push_run(base, done, before, named_run("--clevel"@, self.compression_level), args@);
            done = done.push(named_run("--clevel"@, self.compression_level));
            before = args@;
        }
        add_named(args, "--qlevel", &self.quality_level);
        proof {
            lemma_push_run(base, done, before, named_run("--qlevel"@, self.quality_level), args@);
            done = done.push(named_run("--qlevel"@, self.quality_level));
            before = args@;
        }
        add_named(args, "--max_endpoints", &self.max_endpoints);
        proof {
            lemma_push_run(base, done, before, named_run("--max_endpoints"@, self.max_endpoints), args@);
            done = done.push(named_run("--max_endpoints"@, self.max_endpoints));
            before = args@;
        }
        add_named(args, "--endpoint_rdo_threshold", &self.endpoint_rdo_threshold);
        proof {
            lemma_push_run(base, done, before, named_run("--endpoint_rdo_threshold"@, self.endpoint_rdo_threshold), args@);
            done = done.push(named_run("--endpoint_rdo_threshold"@, self.endpoint_rdo_threshold));
            before = args@;
        }
        add_named(args, "--max_selectors", &self.max_selectors);
        proof {
            lemma_push_run(base, done, before, named_run("--max_selectors"@, self.max_selectors), args@);
            done = done.push(named_run("--max_selectors"@, self.max_selectors));
            before = args@;
        }
        add_named(args, "--selector_rdo_threshold", &self.selector_rdo_threshold);
        proof {
            lemma_push_run(base, done, before, named_run("--selector_rdo_threshold"@, self.selector_rdo_threshold), args@);
            done = done.push(named_run("--selector_rdo_threshold"@, self.selector_rdo_threshold));
            before = args@;
        }
        add_flag(args, self.no_endpoint_rdo, "--no_endpoint_rdo");
        proof {
            lemma_push_run(base, done, before, flag_run(self.no_endpoint_rdo, "--no_endpoint_rdo"@), args@);
            done = done.push(flag_run(self.no_endpoint_rdo, "--no_endpoint_rdo"@));
            before = args@;
        }
        add_flag(args, self.no_selector_rdo, "--no_selector_rdo");
        proof {
            lemma_push_run(base, done, before, flag_run(self.no_selector_rdo, "--no_selector_rdo"@), args@);
            done = done.push(flag_run(self.no_selector_rdo, "--no_selector_rdo"@));
            before = args@;
        }
        assert(done == self.runs());
    }
}

impl Default for ETC1SOptions {
    fn default() -> (r: ETC1SOptions)
        ensures
            r == (ETC1SOptions {
                compression_level: None,
                quality_level: None,
                max_endpoints: None,
                endpoint_rdo_threshold: None,
                max_selectors: None,
                selector_rdo_threshold: None,
                no_endpoint_rdo: false,
                no_selector_rdo: false,
            }),
    {
        ETC1SOptions {
            compression_level: None,
            quality_level: None,
            max_endpoints: None,
            endpoint_rdo_threshold: None,
            max_selectors: None,
            selector_rdo_threshold: None,
            no_endpoint_rdo: false,
            no_selector_rdo: false,
        }
    }
}

/// The options' tokens are their fields' runs in declaration order; when
/// two option sets differ only in field `k`, everything rendered before and
/// after that field's run is the same for both.
pub proof fn lemma_etc1s_order_preserved(a: ETC1SOptions, b: ETC1SOptions, k: int)
    requires
        0 <= k < 8,
        forall|i: int| 0 <= i < 8 && i != k ==> a.runs()[i] == b.runs()[i],
    ensures
        a.runs().len() == 8,
        a.tokens() == a.runs().take(k).flatten() + a.runs()[k] + a.runs().skip(k + 1).flatten(),
        b.tokens() == a.runs().take(k).flatten() + b.runs()[k] + a.runs().skip(k + 1).flatten(),
{
    lemma_change_one_run(a.runs(), b.runs(), k);
}

} // verus!
