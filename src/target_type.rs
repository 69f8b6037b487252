//! The component layout of the created texture.

use vstd::prelude::*;
use vstd::string::StringExecFns;

use crate::args::ArgValue;

verus! {

/// Number of components in the created texture.
#[derive(Debug, Clone, Copy, Hash, PartialEq, Eq, Structural)]
pub enum TargetType {
    R,
    RG,
    RGB,
    RGBA,
}

impl TargetType {
    /// The layout's bare name.
    pub open spec fn name(&self) -> Seq<char> {
        match self {
            TargetType::R => "R"@,
            TargetType::RG => "RG"@,
            TargetType::RGB => "RGB"@,
            TargetType::RGBA => "RGBA"@,
        }
    }

    /// The layout's bare name.
    pub fn as_str(&self) -> (r: &'static str)
        ensures
            r@ == self.name(),
    {
        match self {
            TargetType::R => "R",
            TargetType::RG => "RG",
            TargetType::RGB => "RGB",
            TargetType::RGBA => "RGBA",
        }
    }

    /// The value's token: the name tagged with the `@c ` prefix.
    pub open spec fn text(&self) -> Seq<char> {
        "@c "@ + self.name()
    }

    /// The value's token: the name tagged with the `@c ` prefix.
    pub fn to_string(&self) -> (r: String)
        ensures
            r@ == self.text(),
    {
        let mut s = String::from_str("@c ");
        s.append(self.as_str());
        s
    }
}

impl ArgValue for TargetType {
    open spec fn text(&self) -> Seq<char> {
        self.text()
    }

    fn to_arg(&self) -> (r: String) {
        self.to_string()
    }
}

} // verus!
