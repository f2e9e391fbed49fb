//! Lazy, element-wise array expressions that are evaluated in parallel.
//!
//! An [`Expression`] describes a (possibly unbounded) sequence of elements without
//! computing it. Expressions are built from slices, constants and element-wise
//! operators, and they are consumed by a reduction (`sum`, `write`) that may cut
//! the expression into halves and evaluate the halves on different threads.
use vstd::prelude::*;

pub mod iterators;
mod compare;
pub mod operator;
pub use operator::{Ne, Lt, Le, Gt, Ge, make_eq, make_ne, make_lt, make_le, make_gt, make_ge};
mod raw;
pub use raw::{Zip, Mapped, make_zip, make_map};
mod simple;
pub use simple::{E, Constant, Rev};
mod switch;
pub use switch::{Switch, SwitchOn, make_switch};
mod evaluation;
pub use evaluation::{evaluate, get_len, threshold_for, evaluation_ok};
pub mod reduce;
use evaluation::lemma_write_evaluation_ok;
use reduce::{Sum, Summand, Write, sum_of, consumable, common_len};
use iterators::{EqEq, BangEq, LessThan, LessThanEq, GreaterThan, GreaterThanEq};

verus! {

/// The number of elements an expression yields.
#[derive(Copy, Clone, Debug, PartialEq, Eq, Structural, PartialOrd, Ord)]
pub enum Length {
    Finite(usize),
    Infinite,
}

impl Length {
    /// Two lengths are compatible when they could describe the same iteration space:
    /// equal finite lengths, or at least one unbounded side.
    pub open spec fn spec_compatible(self, other: Length) -> bool {
        match (self, other) {
            (Length::Finite(a), Length::Finite(b)) => a == b,
            _ => true,
        }
    }

    /// The shorter of two lengths; an unbounded length is longer than every finite one.
    pub open spec fn spec_shorter(self, other: Length) -> Length {
        match (self, other) {
            (Length::Finite(a), Length::Finite(b)) => if a <= b {
                Length::Finite(a)
            } else {
                Length::Finite(b)
            },
            (Length::Finite(a), Length::Infinite) => Length::Finite(a),
            (Length::Infinite, other) => other,
        }
    }

    /// `i` is an index of an expression of this length.
    pub open spec fn has(self, i: int) -> bool {
        &&& 0 <= i
        &&& match self {
            Length::Finite(n) => i < n,
            Length::Infinite => true,
        }
    }

    /// `k` is a position at which an expression of this length can be cut.
    pub open spec fn can_cut(self, k: int) -> bool {
        &&& 0 <= k
        &&& match self {
            Length::Finite(n) => k <= n,
            Length::Infinite => true,
        }
    }

    /// The length of the first `k` elements.
    pub open spec fn prefix(self, k: int) -> Length {
        match self {
            Length::Finite(n) => Length::Finite(k as usize),
            Length::Infinite => Length::Infinite,
        }
    }

    /// The length of what follows the first `k` elements.
    pub open spec fn suffix(self, k: int) -> Length {
        match self {
            Length::Finite(n) => Length::Finite((n - k) as usize),
            Length::Infinite => Length::Infinite,
        }
    }

    /// Where `split` cuts: the first half gets `(n + round_up) / 2` elements.
    pub open spec fn split_point(self, round_up: bool) -> int {
        match self {
            Length::Finite(n) => (n + if round_up {
                1int
            } else {
                0int
            }) / 2,
            Length::Infinite => 0,
        }
    }

    /// The index that `i` is sent to when the sequence is reversed.
    pub open spec fn mirror(self, i: int) -> int {
        match self {
            Length::Finite(n) => n - 1 - i,
            Length::Infinite => i,
        }
    }

    /// The number of elements of a finite length.
    pub open spec fn count(self) -> nat {
        match self {
            Length::Finite(n) => n as nat,
            Length::Infinite => 0,
        }
    }

    /// Whether two lengths describe the same iteration space.
    pub fn compatible(self, other: Length) -> (r: bool)
        ensures
            r == self.spec_compatible(other),
    {
        match (self, other) {
            (Length::Finite(a), Length::Finite(b)) => a == b,
            (Length::Infinite, _) | (_, Length::Infinite) => true,
        }
    }

    /// The shorter of two lengths.
    pub fn shorter(self, other: Length) -> (r: Length)
        ensures
            r == self.spec_shorter(other),
    {
        match (self, other) {
            (Length::Finite(a), Length::Finite(b)) => if a <= b {
                Length::Finite(a)
            } else {
                Length::Finite(b)
            },
            (Length::Finite(a), Length::Infinite) => Length::Finite(a),
            (Length::Infinite, other) => other,
        }
    }
}

/// `r` yields the elements of `whole` in the opposite order.
pub open spec fn mirrored<X: Expression, R: Expression<Element = X::Element>>(
    whole: X,
    r: R,
) -> bool {
    &&& r.inv()
    &&& r.spec_length() == whole.spec_length()
    &&& forall|i: int|
        #![trigger r.spec_at(i)]
        #![trigger r.defined_at(i)]
        r.spec_length().has(i) ==> r.spec_at(i) == whole.spec_at(whole.spec_length().mirror(i))
            && r.defined_at(i) == whole.defined_at(whole.spec_length().mirror(i))
}

/// Every element of `x` below `n` can be computed.
pub open spec fn defined_below<X: Expression>(x: X, n: int) -> bool {
    forall|i: int| 0 <= i < n ==> #[trigger] x.defined_at(i)
}

/// The first `n` elements of `x`, as a sequence.
pub open spec fn elements<X: Expression>(x: X, n: nat) -> Seq<X::Element> {
    Seq::new(n, |i: int| x.spec_at(i))
}

/// A lazily evaluated sequence of elements.
///
/// The meaning of an expression is given by `spec_length` (how many elements it
/// yields, possibly unboundedly many) and `spec_at` (the element at each index);
/// `defined_at` says where computing an element is free of arithmetic faults.
pub trait Expression: Sized {
    type Element;

    /// Internal consistency: the parts of a compound expression have compatible lengths.
    spec fn inv(&self) -> bool;

    spec fn spec_length(&self) -> Length;

    spec fn spec_at(&self, i: int) -> Self::Element;

    spec fn defined_at(&self, i: int) -> bool;

    /// An unbounded expression yields the same element at every index.
    proof fn lemma_unbounded_uniform(&self, i: int, j: int)
        requires
            self.inv(),
            0 <= i,
            0 <= j,
        ensures
            self.spec_length() == Length::Infinite ==> self.spec_at(i) == self.spec_at(j)
                && self.defined_at(i) == self.defined_at(j),
    ;

    fn length(&self) -> (l: Length)
        requires
            self.inv(),
        ensures
            l == self.spec_length(),
    ;

    /// Computes the element at index `i`.
    fn value_at(&self, i: usize) -> (v: Self::Element)
        requires
            self.inv(),
            self.spec_length().has(i as int),
            self.defined_at(i as int),
        ensures
            v == self.spec_at(i as int),
    ;

    /// Cuts the expression in two halves; with `round_up` the first half takes the
    /// middle element of an odd length.
    fn split(self, round_up: bool) -> (r: (Self, Self))
        requires
            self.inv(),
        ensures
            r.0.inv(),
            r.1.inv(),
            r.0.spec_length() == self.spec_length().prefix(self.spec_length().split_point(round_up)),
            r.1.spec_length() == self.spec_length().suffix(self.spec_length().split_point(round_up)),
            forall|i: int|
                #![trigger r.0.spec_at(i)]
                #![trigger r.0.defined_at(i)]
                r.0.spec_length().has(i) ==> r.0.spec_at(i) == self.spec_at(i)
                    && r.0.defined_at(i) == self.defined_at(i),
            forall|i: int|
                #![trigger r.1.spec_at(i)]
                #![trigger r.1.defined_at(i)]
                r.1.spec_length().has(i) ==> r.1.spec_at(i) == self.spec_at(self.spec_length().split_point(round_up) + i)
                    && r.1.defined_at(i) == self.defined_at(self.spec_length().split_point(round_up) + i),
    ;

    /// Cuts the expression after its first `n` elements.
    fn split_at(self, n: usize) -> (r: (Self, Self))
        requires
            self.inv(),
            self.spec_length().can_cut(n as int),
        ensures
            r.0.inv(),
            r.1.inv(),
            r.0.spec_length() == self.spec_length().prefix(n as int),
            r.1.spec_length() == self.spec_length().suffix(n as int),
            forall|i: int|
                #![trigger r.0.spec_at(i)]
                #![trigger r.0.defined_at(i)]
                r.0.spec_length().has(i) ==> r.0.spec_at(i) == self.spec_at(i)
                    && r.0.defined_at(i) == self.defined_at(i),
            forall|i: int|
                #![trigger r.1.spec_at(i)]
                #![trigger r.1.defined_at(i)]
                r.1.spec_length().has(i) ==> r.1.spec_at(i) == self.spec_at(n as int + i)
                    && r.1.defined_at(i) == self.defined_at(n as int + i),
    ;
}

/// `lo` and `hi` are the two pieces of `whole` cut after its first `k` elements.
pub open spec fn pieces<X: Expression>(whole: X, k: int, lo: X, hi: X) -> bool {
    &&& lo.inv()
    &&& hi.inv()
    &&& lo.spec_length() == whole.spec_length().prefix(k)
    &&& hi.spec_length() == whole.spec_length().suffix(k)
    &&& forall|i: int|
        #![trigger lo.spec_at(i)]
        #![trigger lo.defined_at(i)]
        lo.spec_length().has(i) ==> lo.spec_at(i) == whole.spec_at(i) && lo.defined_at(i)
            == whole.defined_at(i)
    &&& forall|i: int|
        #![trigger hi.spec_at(i)]
        #![trigger hi.defined_at(i)]
        hi.spec_length().has(i) ==> hi.spec_at(i) == whole.spec_at(k + i) && hi.defined_at(i)
            == whole.defined_at(k + i)
}

/// An expression whose elements can also be visited last to first.
pub trait Reversible: Expression {
    type Rev: Expression<Element = Self::Element>;

    /// The same elements in the opposite order.
    fn rev(self) -> (r: Self::Rev)
        requires
            self.inv(),
        ensures
            mirrored(self, r),
    ;
}

/// Reversing lists the elements of a finite expression last to first.
pub proof fn lemma_rev_elements<X: Expression, R: Expression<Element = X::Element>>(x: X, r: R)
    requires
        mirrored(x, r),
        x.spec_length() is Finite,
    ensures
        elements(r, r.spec_length().count()) == elements(x, x.spec_length().count()).reverse(),
{
    assert(elements(r, r.spec_length().count()) =~= elements(x, x.spec_length().count()).reverse());
}

/// Reversing twice gives back the elements of the expression that was reversed.
pub proof fn lemma_rev_rev<X: Expression, R: Expression<Element = X::Element>, Q: Expression<
    Element = X::Element,
>>(x: X, r: R, q: Q)
    requires
        mirrored(x, r),
        mirrored(r, q),
    ensures
        q.spec_length() == x.spec_length(),
        forall|i: int|
            #![trigger q.spec_at(i)]
            q.spec_length().has(i) ==> q.spec_at(i) == x.spec_at(i) && q.defined_at(i)
                == x.defined_at(i),
{
    assert forall|i: int| q.spec_length().has(i) implies q.spec_at(i) == x.spec_at(i)
        && q.defined_at(i) == x.defined_at(i) by {
        assert(r.spec_length().has(r.spec_length().mirror(i)));
    }
}

/// The elements of the two pieces of a finite expression, one after the other, are the
/// elements of the whole.
pub proof fn lemma_pieces_join<X: Expression>(whole: X, k: int, lo: X, hi: X)
    requires
        pieces(whole, k, lo, hi),
        whole.spec_length().can_cut(k),
        whole.spec_length() is Finite,
    ensures
        elements(lo, lo.spec_length().count()) + elements(hi, hi.spec_length().count())
            == elements(whole, whole.spec_length().count()),
{
    let n = whole.spec_length().count();
    let joined = elements(lo, lo.spec_length().count()) + elements(hi, hi.spec_length().count());
    assert forall|i: int| 0 <= i < n implies joined[i] == elements(whole, n)[i] by {
        if i >= k {
            assert(hi.spec_length().has(i - k));
        } else {
            assert(lo.spec_length().has(i));
        }
    }
    assert(joined =~= elements(whole, n));
}

/// The operations that every expression offers: evaluating it, and building larger
/// expressions from it.
pub trait ExpressionExt: Expression {
    /// The elements of a finite expression, computed one by one, first to last.
    fn values(self) -> (v: Vec<Self::Element>)
        requires
            self.inv(),
            self.spec_length() is Finite,
            defined_below(self, self.spec_length().count() as int),
        ensures
            v@ == elements(self, self.spec_length().count()),
    ;

    /// Stores the elements of the expression into `out`, evaluating in parallel.
    fn write(self, out: &mut [Self::Element]) where Self: Send, Self::Element: Send
        requires
            consumable(self, Length::Finite(old(out)@.len() as usize)),
        ensures
            final(out)@ == elements(self, old(out)@.len()),
    ;

    /// The sum of the elements of a finite expression, evaluated in parallel.
    fn sum(self) -> (r: Self::Element) where Self: Send, Self::Element: Summand + Send
        requires
            consumable(self, Length::Infinite),
            evaluation_ok::<Self::Element, Sum>(
                elements(self, self.spec_length().count()),
                threshold_for(self.spec_length().count()),
            ),
        ensures
            r.as_int() == sum_of(elements(self, self.spec_length().count())),
    ;

    /// Pairs the elements of `self` and `e`.
    fn zip<Y: Expression>(self, e: Y) -> (r: Zip<Self, Y>)
        ensures
            r.first() == self,
            r.second() == e,
    ;

    /// Applies `f` to every element.
    fn map<O, F: Fn(Self::Element) -> O + Copy>(self, f: F) -> (r: Mapped<Self, F>)
        ensures
            r.source() == self,
            r.func() == f,
    ;

    /// Where `self` holds, the element of `then`, else that of `else_`.
    fn switch<T, U>(self, then: T, else_: U) -> (r: Switch<Self, T, U>) where
        Self::Element: SwitchOn<T::Element>,
        T: Expression,
        U: Expression<Element = T::Element>,

        ensures
            r.condition() == self,
            r.then_branch() == then,
            r.else_branch() == else_,
    ;

    /// `self == other`, element by element.
    fn eq<Y: Expression>(self, other: Y) -> (r: operator::Eq<Self, Y>)
        ensures
            r.operator() == EqEq,
            r.left() == self,
            r.right() == other,
    ;

    /// `self != other`, element by element.
    fn ne<Y: Expression>(self, other: Y) -> (r: Ne<Self, Y>)
        ensures
            r.operator() == BangEq,
            r.left() == self,
            r.right() == other,
    ;

    /// `self < other`, element by element.
    fn lt<Y: Expression>(self, other: Y) -> (r: Lt<Self, Y>)
        ensures
            r.operator() == LessThan,
            r.left() == self,
            r.right() == other,
    ;

    /// `self <= other`, element by element.
    fn le<Y: Expression>(self, other: Y) -> (r: Le<Self, Y>)
        ensures
            r.operator() == LessThanEq,
            r.left() == self,
            r.right() == other,
    ;

    /// `self > other`, element by element.
    fn gt<Y: Expression>(self, other: Y) -> (r: Gt<Self, Y>)
        ensures
            r.operator() == GreaterThan,
            r.left() == self,
            r.right() == other,
    ;

    /// `self >= other`, element by element.
    fn ge<Y: Expression>(self, other: Y) -> (r: Ge<Self, Y>)
        ensures
            r.operator() == GreaterThanEq,
            r.left() == self,
            r.right() == other,
    ;
}

impl<X: Expression> ExpressionExt for X {
    fn values(self) -> (v: Vec<Self::Element>)
    {
        let n = match self.length() {
            Length::Finite(n) => n,
            Length::Infinite => vstd::pervasive::unreached(),
        };
        let mut v: Vec<Self::Element> = Vec::new();
        let mut i: usize = 0;
        while i < n
            invariant
                i <= n,
                self.inv(),
                self.spec_length() == Length::Finite(n),
                defined_below(self, n as int),
                v@ =~= elements(self, i as nat),
            decreases n - i,
        {
            assert(self.defined_at(i as int));
            v.push(self.value_at(i));
            i += 1;
        }
        v
    }


    fn write(self, out: &mut [Self::Element]) where Self: Send, Self::Element: Send
    {
        let m = out.len();
        let ghost n = common_len(self.spec_length(), Length::Finite(m));
        proof {
            lemma_write_evaluation_ok::<Self::Element>(elements(self, n), threshold_for(n));
        }
        evaluate(self, Write(out));
        proof {
            assert(old(out)@.skip(n as int) =~= Seq::<Self::Element>::empty());
        }
    }


    fn sum(self) -> (r: Self::Element) where Self: Send, Self::Element: Summand + Send
    {
        evaluate(self, Sum)
    }


    fn zip<Y: Expression>(self, e: Y) -> (r: Zip<Self, Y>)
    {
        make_zip(self, e)
    }


    fn map<O, F: Fn(Self::Element) -> O + Copy>(self, f: F) -> (r: Mapped<Self, F>)
    {
        make_map(self, f)
    }


    fn switch<T, U>(self, then: T, else_: U) -> (r: Switch<Self, T, U>) where
        Self::Element: SwitchOn<T::Element>,
        T: Expression,
        U: Expression<Element = T::Element>,

    {
        make_switch(self, then, else_)
    }


    fn eq<Y: Expression>(self, other: Y) -> (r: operator::Eq<Self, Y>)
    {
        make_eq(self, other)
    }


    fn ne<Y: Expression>(self, other: Y) -> (r: Ne<Self, Y>)
    {
        make_ne(self, other)
    }


    fn lt<Y: Expression>(self, other: Y) -> (r: Lt<Self, Y>)
    {
        make_lt(self, other)
    }


    fn le<Y: Expression>(self, other: Y) -> (r: Le<Self, Y>)
    {
        make_le(self, other)
    }


    fn gt<Y: Expression>(self, other: Y) -> (r: Gt<Self, Y>)
    {
        make_gt(self, other)
    }


    fn ge<Y: Expression>(self, other: Y) -> (r: Ge<Self, Y>)
    {
        make_ge(self, other)
    }
}

} // verus!
