//! Named bitwise operations on bytes.

use vstd::prelude::*;

verus! {

/// A named binary operation on values of `T`.
pub trait Operation<T> {
    /// What the operation computes.
    spec fn result(&self, a: T, b: T) -> T;

    /// The operation's name.
    spec fn spec_name(&self) -> Seq<char>;

    /// The operator symbol.
    spec fn spec_designation(&self) -> Seq<char>;

    fn name(&self) -> (r: &'static str)
        ensures
            r@ == self.spec_name(),
    ;

    fn designation(&self) -> (r: &'static str)
        ensures
            r@ == self.spec_designation(),
    ;

    fn calclate(&self, a: T, b: T) -> (r: T)
        ensures
            r == self.result(a, b),
    ;
}

#[derive(Clone, Copy, Debug, Default)]
pub struct Xor;

#[derive(Clone, Copy, Debug, Default)]
pub struct Or;

#[derive(Clone, Copy, Debug, Default)]
pub struct And;

#[derive(Clone, Copy, Debug, Default)]
pub struct Nand;

#[derive(Clone, Copy, Debug, Default)]
pub struct Nor;

impl Operation<u8> for Xor {
    open spec fn result(&self, a: u8, b: u8) -> u8 {
        a ^ b
    }

    open spec fn spec_name(&self) -> Seq<char> {
        "xor"@
    }

    open spec fn spec_designation(&self) -> Seq<char> {
        "^"@
    }

    fn name(&self) -> (r: &'static str) {
        "xor"
    }

    fn designation(&self) -> (r: &'static str) {
        "^"
    }

    fn calclate(&self, a: u8, b: u8) -> (r: u8) {
        a ^ b
    }
}

impl Operation<u8> for Or {
    open spec fn result(&self, a: u8, b: u8) -> u8 {
        a | b
    }

    open spec fn spec_name(&self) -> Seq<char> {
        "or"@
    }

    open spec fn spec_designation(&self) -> Seq<char> {
        "|"@
    }

    fn name(&self) -> (r: &'static str) {
        "or"
    }

    fn designation(&self) -> (r: &'static str) {
        "|"
    }

    fn calclate(&self, a: u8, b: u8) -> (r: u8) {
        a | b
    }
}

impl Operation<u8> for And {
    open spec fn result(&self, a: u8, b: u8) -> u8 {
        a & b
    }

    open spec fn spec_name(&self) -> Seq<char> {
        "and"@
    }

    open spec fn spec_designation(&self) -> Seq<char> {
        "&"@
    }

    fn name(&self) -> (r: &'static str) {
        "and"
    }

    fn designation(&self) -> (r: &'static str) {
        "&"
    }

    fn calclate(&self, a: u8, b: u8) -> (r: u8) {
        a & b
    }
}

impl Operation<u8> for Nand {
    open spec fn result(&self, a: u8, b: u8) -> u8 {
        !(a & b)
    }

    open spec fn spec_name(&self) -> Seq<char> {
        "nand"@
    }

    open spec fn spec_designation(&self) -> Seq<char> {
        "↑"@
    }

    fn name(&self) -> (r: &'static str) {
        "nand"
    }

    fn designation(&self) -> (r: &'static str) {
        "↑"
    }

    fn calclate(&self, a: u8, b: u8) -> (r: u8) {
        !(a & b)
    }
}

impl Operation<u8> for Nor {
    open spec fn result(&self, a: u8, b: u8) -> u8 {
        !(a | b)
    }

    open spec fn spec_name(&self) -> Seq<char> {
        "nor"@
    }

    open spec fn spec_designation(&self) -> Seq<char> {
        "↓"@
    }

    fn name(&self) -> (r: &'static str) {
        "nor"
    }

    fn designation(&self) -> (r: &'static str) {
        "↓"
    }

    fn calclate(&self, a: u8, b: u8) -> (r: u8) {
        !(a | b)
    }
}

} // verus!
