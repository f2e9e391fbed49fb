//! Pairing two expressions, and applying a function to every element.
use vstd::prelude::*;
use crate::{Expression, Reversible, Length};

verus! {

/// The elements of two expressions, paired index by index.
#[derive(Copy, Clone)]
pub struct Zip<X, Y>(X, Y);

impl<X, Y> Zip<X, Y> {
    pub closed spec fn first(self) -> X {
        self.0
    }

    pub closed spec fn second(self) -> Y {
        self.1
    }
}

/// Pairs the elements of `x` and `y`.
pub fn make_zip<X, Y>(x: X, y: Y) -> (r: Zip<X, Y>)
    ensures
        r.first() == x,
        r.second() == y,
{
    Zip(x, y)
}

impl<X: Expression, Y: Expression> Expression for Zip<X, Y> {
    type Element = (X::Element, Y::Element);

    open spec fn inv(&self) -> bool {
        &&& self.first().inv()
        &&& self.second().inv()
        &&& self.first().spec_length().spec_compatible(self.second().spec_length())
    }

    open spec fn spec_length(&self) -> Length {
        self.first().spec_length().spec_shorter(self.second().spec_length())
    }

    open spec fn spec_at(&self, i: int) -> (X::Element, Y::Element) {
        (self.first().spec_at(i), self.second().spec_at(i))
    }

    open spec fn defined_at(&self, i: int) -> bool {
        self.first().defined_at(i) && self.second().defined_at(i)
    }

    proof fn lemma_unbounded_uniform(&self, i: int, j: int) {
        self.0.lemma_unbounded_uniform(i, j);
        self.1.lemma_unbounded_uniform(i, j);
    }

    fn length(&self) -> (l: Length) {
        let len1 = self.0.length();
        let len2 = self.1.length();
        len1.shorter(len2)
    }

    fn value_at(&self, i: usize) -> (v: (X::Element, Y::Element)) {
        (self.0.value_at(i), self.1.value_at(i))
    }

    fn split(self, round_up: bool) -> (r: (Self, Self)) {
        let ghost k = self.spec_length().split_point(round_up);
        let ghost whole = self;
        let (x1, x2) = self.0.split(round_up);
        let (y1, y2) = self.1.split(round_up);
        let hi = Zip(x2, y2);
        proof {
            assert forall|i: int| hi.spec_length().has(i) implies hi.spec_at(i) == whole.spec_at(k
                + i) && hi.defined_at(i) == whole.defined_at(k + i) by {
                if whole.0.spec_length() is Infinite {
                    whole.0.lemma_unbounded_uniform(i, k + i);
                }
                if whole.1.spec_length() is Infinite {
                    whole.1.lemma_unbounded_uniform(i, k + i);
                }
            }
        }
        (Zip(x1, y1), hi)
    }

    fn split_at(self, n: usize) -> (r: (Self, Self)) {
        let (x1, x2) = self.0.split_at(n);
        let (y1, y2) = self.1.split_at(n);
        (Zip(x1, y1), Zip(x2, y2))
    }
}

impl<X: Reversible, Y: Reversible> Reversible for Zip<X, Y> {
    type Rev = Zip<X::Rev, Y::Rev>;

    fn rev(self) -> (r: Zip<X::Rev, Y::Rev>) {
        let ghost whole = self;
        let r = Zip(self.0.rev(), self.1.rev());
        proof {
            let n = whole.spec_length();
            assert forall|i: int| r.spec_length().has(i) implies r.spec_at(i) == whole.spec_at(
                n.mirror(i),
            ) && r.defined_at(i) == whole.defined_at(n.mirror(i)) by {
                if whole.0.spec_length() is Infinite {
                    whole.0.lemma_unbounded_uniform(i, n.mirror(i));
                }
                if whole.1.spec_length() is Infinite {
                    whole.1.lemma_unbounded_uniform(i, n.mirror(i));
                }
            }
        }
        r
    }
}

/// A function applied to every element of an expression.
#[derive(Copy, Clone)]
pub struct Mapped<X, F>(X, F);

impl<X, F> Mapped<X, F> {
    pub closed spec fn source(self) -> X {
        self.0
    }

    pub closed spec fn func(self) -> F {
        self.1
    }
}

/// Applies `f` to every element of `x`.
pub fn make_map<X, F>(x: X, f: F) -> (r: Mapped<X, F>)
    ensures
        r.source() == x,
        r.func() == f,
{
    Mapped(x, f)
}

/// `f` gives one result for each argument.
pub open spec fn deterministic<A, O, F: Fn(A) -> O>(f: F) -> bool {
    forall|a: A, o1: O, o2: O|
        #![trigger call_ensures(f, (a,), o1), call_ensures(f, (a,), o2)]
        call_ensures(f, (a,), o1) && call_ensures(f, (a,), o2) ==> o1 == o2
}

/// What `f` gives for `a`.
pub open spec fn image<A, O, F: Fn(A) -> O>(f: F, a: A) -> O {
    choose|o: O| call_ensures(f, (a,), o)
}

impl<X, O, F> Expression for Mapped<X, F> where X: Expression, F: Fn(X::Element) -> O + Copy {
    type Element = O;

    open spec fn inv(&self) -> bool {
        &&& self.source().inv()
        &&& deterministic(self.func())
    }

    open spec fn spec_length(&self) -> Length {
        self.source().spec_length()
    }

    open spec fn spec_at(&self, i: int) -> O {
        image(self.func(), self.source().spec_at(i))
    }

    open spec fn defined_at(&self, i: int) -> bool {
        &&& self.source().defined_at(i)
        &&& call_requires(self.func(), (self.source().spec_at(i),))
    }

    proof fn lemma_unbounded_uniform(&self, i: int, j: int) {
        self.0.lemma_unbounded_uniform(i, j);
    }

    fn length(&self) -> (l: Length) {
        self.0.length()
    }

    fn value_at(&self, i: usize) -> (v: O) {
        let a = self.0.value_at(i);
        let v = (self.1)(a);
        proof {
            let o = image(self.1, self.0.spec_at(i as int));
            assert(call_ensures(self.1, (a,), o));
        }
        v
    }

    fn split(self, round_up: bool) -> (r: (Self, Self)) {
        let (x1, x2) = self.0.split(round_up);
        (Mapped(x1, self.1), Mapped(x2, self.1))
    }

    fn split_at(self, n: usize) -> (r: (Self, Self)) {
        let (x1, x2) = self.0.split_at(n);
        (Mapped(x1, self.1), Mapped(x2, self.1))
    }
}

impl<X, O, F> Reversible for Mapped<X, F> where X: Reversible, F: Fn(X::Element) -> O + Copy {
    type Rev = Mapped<X::Rev, F>;

    fn rev(self) -> (r: Mapped<X::Rev, F>) {
        Mapped(self.0.rev(), self.1)
    }
}

} // verus!
