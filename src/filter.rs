//! Mipmap filters.

use vstd::prelude::*;
use vstd::string::StringExecFns;

use crate::args::ArgValue;

verus! {

/// Filter to use when generating mipmaps.
#[derive(Debug, Clone, Copy, Hash, PartialEq, Eq, Structural)]
pub enum Filter {
    Box,
    Tent,
    Bell,
    BSpline,
    Mitchell,
    Lanczos3,
    Lanczos4,
    Lanczos6,
    Lanczos12,
    Blackman,
    Kaiser,
    Gaussian,
    Catmullrom,
    QuadraticInterp,
    QuadraticApprox,
    QuadraticMix,
}

impl Filter {
    /// The filter's name as the tool spells it.
    pub open spec fn name(&self) -> Seq<char> {
        match self {
            Filter::Box => "box"@,
            Filter::Tent => "tent"@,
            Filter::Bell => "bell"@,
            Filter::BSpline => "b-spline"@,
            Filter::Mitchell => "mitchell"@,
            Filter::Lanczos3 => "lanczos3"@,
            Filter::Lanczos4 => "lanczos4"@,
            Filter::Lanczos6 => "lanczos6"@,
            Filter::Lanczos12 => "lanczos12"@,
            Filter::Blackman => "blackman"@,
            Filter::Kaiser => "kaiser"@,
            Filter::Gaussian => "gaussian"@,
            Filter::Catmullrom => "catmullrom"@,
            Filter::QuadraticInterp => "quadratic_interp"@,
            Filter::QuadraticApprox => "quadratic_approx"@,
            Filter::QuadraticMix => "quadratic_mix"@,
        }
    }

    /// The filter's name as the tool spells it.
    pub fn as_str(&self) -> (r: &'static str)
        ensures
            r@ == self.name(),
    {
        match self {
            Filter::Box => "box",
            Filter::Tent => "tent",
            Filter::Bell => "bell",
            Filter::BSpline => "b-spline",
            Filter::Mitchell => "mitchell",
            Filter::Lanczos3 => "lanczos3",
            Filter::Lanczos4 => "lanczos4",
            Filter::Lanczos6 => "lanczos6",
            Filter::Lanczos12 => "lanczos12",
            Filter::Blackman => "blackman",
            Filter::Kaiser => "kaiser",
            Filter::Gaussian => "gaussian",
            Filter::Catmullrom => "catmullrom",
            Filter::QuadraticInterp => "quadratic_interp",
            Filter::QuadraticApprox => "quadratic_approx",
            Filter::QuadraticMix => "quadratic_mix",
        }
    }

    /// The filter's name as an owned string.
    pub fn to_string(&self) -> (r: String)
        ensures
            r@ == self.name(),
    {
        String::from_str(self.as_str())
    }
}

impl ArgValue for Filter {
    open spec fn text(&self) -> Seq<char> {
        self.name()
    }

    fn to_arg(&self) -> (r: String) {
        self.to_string()
    }
}

} // verus!
