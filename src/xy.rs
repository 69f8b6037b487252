//! Two- and three-component values written with `x` between the components.

use vstd::prelude::*;
use vstd::string::StringExecFns;

use crate::args::{decimal, decimal_string, ArgValue};

verus! {

/// An unsigned integer that can stand as a component of [`XY`] or [`XYZ`].
pub trait Component: Copy {
    /// The component's numeric value.
    spec fn value(&self) -> nat;

    /// The value widened to `u64`.
    fn to_u64(&self) -> (r: u64)
        ensures
            r as nat == self.value(),
    ;
}

impl Component for u8 {
    open spec fn value(&self) -> nat {
        *self as nat
    }

    fn to_u64(&self) -> (r: u64) {
        *self as u64
    }
}

impl Component for u16 {
    open spec fn value(&self) -> nat {
        *self as nat
    }

    fn to_u64(&self) -> (r: u64) {
        *self as u64
    }
}

impl Component for u32 {
    open spec fn value(&self) -> nat {
        *self as nat
    }

    fn to_u64(&self) -> (r: u64) {
        *self as u64
    }
}

/// 2D vector, written `XxY`.
#[derive(Clone, Copy, Hash, Eq, PartialEq, Debug)]
pub struct XY<T>(pub T, pub T);

/// 3D vector, written `XxYxZ`.
#[derive(Clone, Copy, Hash, Eq, PartialEq, Debug)]
pub struct XYZ<T>(pub T, pub T, pub T);

impl<T: Component> XY<T> {
    /// The text of the vector: each component in decimal, joined by `x`.
    pub open spec fn text(&self) -> Seq<char> {
        decimal(self.0.value()) + seq!['x'] + decimal(self.1.value())
    }

    /// Renders the vector as one token.
    pub fn to_string(&self) -> (r: String)
        ensures
            r@ == self.text(),
    {
        let mut s = decimal_string(self.0.to_u64());
        proof { reveal_strlit("x"); }
        s.append("x");
        s.append(decimal_string(self.1.to_u64()).as_str());
        s
    }
}

impl<T: Component> XYZ<T> {
    /// The text of the vector: each component in decimal, joined by `x`.
    pub open spec fn text(&self) -> Seq<char> {
        decimal(self.0.value()) + seq!['x'] + decimal(self.1.value()) + seq!['x'] + decimal(
            self.2.value(),
        )
    }

    /// Renders the vector as one token.
    pub fn to_string(&self) -> (r: String)
        ensures
            r@ == self.text(),
    {
        let mut s = decimal_string(self.0.to_u64());
        proof { reveal_strlit("x"); }
        s.append("x");
        s.append(decimal_string(self.1.to_u64()).as_str());
        s.append("x");
        s.append(decimal_string(self.2.to_u64()).as_str());
        s
    }
}

impl<T: Copy> XY<T> {
    /// The first component.
    pub fn x(self) -> (r: T)
        ensures
            r == self.0,
    {
        self.0
    }

    /// The second component.
    pub fn y(self) -> (r: T)
        ensures
            r == self.1,
    {
        self.1
    }
}

impl<T: Copy> XYZ<T> {
    /// The first component.
    pub fn x(self) -> (r: T)
        ensures
            r == self.0,
    {
        self.0
    }

    /// The second component.
    pub fn y(self) -> (r: T)
        ensures
            r == self.1,
    {
        self.1
    }

    /// The third component.
    pub fn z(self) -> (r: T)
        ensures
            r == self.2,
    {
        self.2
    }
}

impl<T> From<(T, T)> for XY<T> {
    fn from(v: (T, T)) -> (r: XY<T>) {
        XY(v.0, v.1)
    }
}

impl<T> vstd::std_specs::convert::FromSpecImpl<(T, T)> for XY<T> {
    open spec fn obeys_from_spec() -> bool {
        true
    }

    open spec fn from_spec(v: (T, T)) -> XY<T> {
        XY(v.0, v.1)
    }
}

impl<T> From<(T, T, T)> for XYZ<T> {
    fn from(v: (T, T, T)) -> (r: XYZ<T>) {
        XYZ(v.0, v.1, v.2)
    }
}

impl<T> vstd::std_specs::convert::FromSpecImpl<(T, T, T)> for XYZ<T> {
    open spec fn obeys_from_spec() -> bool {
        true
    }

    open spec fn from_spec(v: (T, T, T)) -> XYZ<T> {
        XYZ(v.0, v.1, v.2)
    }
}

impl<T: Copy> From<[T; 2]> for XY<T> {
    fn from(v: [T; 2]) -> (r: XY<T>) {
        XY(v[0], v[1])
    }
}

impl<T: Copy> vstd::std_specs::convert::FromSpecImpl<[T; 2]> for XY<T> {
    open spec fn obeys_from_spec() -> bool {
        true
    }

    open spec fn from_spec(v: [T; 2]) -> XY<T> {
        XY(v@[0], v@[1])
    }
}

impl<T: Copy> From<[T; 3]> for XYZ<T> {
    fn from(v: [T; 3]) -> (r: XYZ<T>) {
        XYZ(v[0], v[1], v[2])
    }
}

impl<T: Copy> vstd::std_specs::convert::FromSpecImpl<[T; 3]> for XYZ<T> {
    open spec fn obeys_from_spec() -> bool {
        true
    }

    open spec fn from_spec(v: [T; 3]) -> XYZ<T> {
        XYZ(v@[0], v@[1], v@[2])
    }
}

impl<T: Component> ArgValue for XY<T> {
    open spec fn text(&self) -> Seq<char> {
        self.text()
    }

    fn to_arg(&self) -> (r: String) {
        self.to_string()
    }
}

impl<T: Component> ArgValue for XYZ<T> {
    open spec fn text(&self) -> Seq<char> {
        self.text()
    }

    fn to_arg(&self) -> (r: String) {
        self.to_string()
    }
}

} // verus!
