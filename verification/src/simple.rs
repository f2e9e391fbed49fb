//! The leaves of an expression: constants, slices, and the reversal of a slice.
use vstd::prelude::*;
use crate::{Expression, Reversible, Length, mirrored};

verus! {

/// The same value, repeated without end.
#[derive(Copy, Clone)]
pub struct Constant<T>(pub T);

impl<T: Copy> Expression for Constant<T> {
    type Element = T;

    open spec fn inv(&self) -> bool {
        true
    }

    open spec fn spec_length(&self) -> Length {
        Length::Infinite
    }

    open spec fn spec_at(&self, i: int) -> T {
        self.0
    }

    open spec fn defined_at(&self, i: int) -> bool {
        true
    }

    proof fn lemma_unbounded_uniform(&self, i: int, j: int) {
    }

    fn length(&self) -> (l: Length) {
        Length::Infinite
    }

    fn value_at(&self, i: usize) -> (v: T) {
        self.0
    }

    fn split(self, round_up: bool) -> (r: (Self, Self)) {
        (self, self)
    }


    fn split_at(self, n: usize) -> (r: (Self, Self)) {
        (self, self)
    }
}

impl<T: Copy> Reversible for Constant<T> {
    type Rev = Self;

    fn rev(self) -> (r: Self) {
        self
    }
}

/// A wrapper that marks its content as an expression, so that operators apply to it.
#[derive(Copy, Clone)]
pub struct E<T>(pub T);

impl<X: Expression> Expression for E<X> {
    type Element = X::Element;

    open spec fn inv(&self) -> bool {
        self.0.inv()
    }

    open spec fn spec_length(&self) -> Length {
        self.0.spec_length()
    }

    open spec fn spec_at(&self, i: int) -> X::Element {
        self.0.spec_at(i)
    }

    open spec fn defined_at(&self, i: int) -> bool {
        self.0.defined_at(i)
    }

    proof fn lemma_unbounded_uniform(&self, i: int, j: int) {
        self.0.lemma_unbounded_uniform(i, j);
    }

    fn length(&self) -> (l: Length) {
        self.0.length()
    }

    fn value_at(&self, i: usize) -> (v: X::Element) {
        self.0.value_at(i)
    }

    fn split(self, round_up: bool) -> (r: (Self, Self)) {
        let (lo, hi) = self.0.split(round_up);
        (E(lo), E(hi))
    }


    fn split_at(self, n: usize) -> (r: (Self, Self)) {
        let (lo, hi) = self.0.split_at(n);
        (E(lo), E(hi))
    }
}

impl<X: Reversible> Reversible for E<X> {
    type Rev = E<X::Rev>;

    fn rev(self) -> (r: E<X::Rev>) {
        E(self.0.rev())
    }
}

/// The middle of `n` elements; the first half takes the middle element when `round_up`.
pub fn half_point(n: usize, round_up: bool) -> (m: usize)
    ensures
        m == (n + if round_up {
            1int
        } else {
            0int
        }) / 2,
{
    if round_up && n % 2 == 1 {
        n / 2 + 1
    } else {
        n / 2
    }
}

impl<'a, T: Copy> Expression for &'a [T] {
    type Element = T;

    open spec fn inv(&self) -> bool {
        true
    }

    open spec fn spec_length(&self) -> Length {
        Length::Finite(self.len())
    }

    open spec fn spec_at(&self, i: int) -> T {
        self@[i]
    }

    open spec fn defined_at(&self, i: int) -> bool {
        true
    }

    proof fn lemma_unbounded_uniform(&self, i: int, j: int) {
    }

    fn length(&self) -> (l: Length) {
        Length::Finite(self.len())
    }

    fn value_at(&self, i: usize) -> (v: T) {
        self[i]
    }

    fn split(self, round_up: bool) -> (r: (Self, Self)) {
        let mid = half_point(self.len(), round_up);
        <[T]>::split_at(self, mid)
    }


    fn split_at(self, n: usize) -> (r: (Self, Self)) {
        <[T]>::split_at(self, n)
    }
}

impl<'a, T: Copy> Reversible for &'a [T] {
    type Rev = Rev<&'a [T]>;

    fn rev(self) -> (r: Rev<&'a [T]>) {
        Rev(self)
    }
}

/// The elements of a finite expression, last to first.
#[derive(Copy, Clone)]
pub struct Rev<T>(T);

impl<X: Expression> Expression for Rev<X> {
    type Element = X::Element;

    closed spec fn inv(&self) -> bool {
        &&& self.0.inv()
        &&& self.0.spec_length() is Finite
    }

    closed spec fn spec_length(&self) -> Length {
        self.0.spec_length()
    }

    closed spec fn spec_at(&self, i: int) -> X::Element {
        self.0.spec_at(self.0.spec_length().mirror(i))
    }

    closed spec fn defined_at(&self, i: int) -> bool {
        self.0.defined_at(self.0.spec_length().mirror(i))
    }

    proof fn lemma_unbounded_uniform(&self, i: int, j: int) {
    }

    fn length(&self) -> (l: Length) {
        self.0.length()
    }

    fn value_at(&self, i: usize) -> (v: X::Element) {
        match self.0.length() {
            Length::Finite(n) => self.0.value_at(n - 1 - i),
            Length::Infinite => self.0.value_at(i),
        }
    }

    fn split(self, round_up: bool) -> (r: (Self, Self)) {
        let (a, b) = self.0.split(!round_up);
        (Rev(b), Rev(a))
    }


    fn split_at(self, n: usize) -> (r: (Self, Self)) {
        let len = match self.0.length() {
            Length::Finite(len) => len,
            Length::Infinite => n,
        };
        let (a, b) = self.0.split_at(len - n);
        (Rev(b), Rev(a))
    }
}

impl<X: Expression> Reversible for Rev<X> {
    type Rev = X;

    fn rev(self) -> (r: X) {
        self.0
    }
}

} // verus!
