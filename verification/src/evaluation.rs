//! Evaluation: cutting an expression and its reduction in halves until the pieces are
//! small, and reducing the pieces in parallel.
use vstd::prelude::*;
use crate::{Expression, Length, elements, defined_below, pieces};
use crate::reduce::{Reduce, ReduceScalar, Write, common_len, consumable, stored};

verus! {

/// Below this many elements an evaluation is never cut.
pub const MIN_THRESHOLD: usize = 4096;

/// An evaluation is cut into at most about this many pieces.
pub const MAX_COUNT: usize = 32;

/// Runs both closures, possibly in parallel, and returns both results.
///
/// Calls `rayon::join`, which runs `oper_a` and `oper_b` (each exactly once, possibly
/// on two threads) and returns their results in that order; the contract claims no more.
#[verifier::external_body]
fn join<A, B, RA, RB>(oper_a: A, oper_b: B) -> (r: (RA, RB)) where
    A: FnOnce() -> RA + Send,
    B: FnOnce() -> RB + Send,
    RA: Send,
    RB: Send,

    requires
        oper_a.requires(()),
        oper_b.requires(()),
    ensures
        oper_a.ensures((), r.0),
        oper_b.ensures((), r.1),
{
    rayon::join(oper_a, oper_b)
}

/// The number of elements an expression of length `l1` and a reduction expecting `l2`
/// have in common.
pub fn get_len(l1: Length, l2: Length) -> (n: usize)
    requires
        !(l1 is Infinite && l2 is Infinite),
    ensures
        n == common_len(l1, l2),
{
    match l1.shorter(l2) {
        Length::Finite(x) => x,
        Length::Infinite => vstd::pervasive::unreached(),
    }
}

/// The size under which the pieces of an evaluation of `len` elements are reduced in one pass.
pub open spec fn threshold_for(len: nat) -> nat {
    if len / (MAX_COUNT as nat) > MIN_THRESHOLD as nat {
        len / (MAX_COUNT as nat)
    } else {
        MIN_THRESHOLD as nat
    }
}

/// Evaluating the elements `s` with reduction `R`, cutting runs longer than
/// `threshold` in halves, is free of faults: every piece is accepted, and the
/// results of every two halves can be joined.
pub open spec fn evaluation_ok<T, R: Reduce<T>>(s: Seq<T>, threshold: nat) -> bool
    decreases s.len(),
{
    if 0 < threshold < s.len() {
        let mid = s.len() / 2;
        &&& evaluation_ok::<T, R>(s.take(mid as int), threshold)
        &&& evaluation_ok::<T, R>(s.skip(mid as int), threshold)
        &&& forall|o1: R::Output, o2: R::Output|
            #![trigger R::produces(s.take(mid as int), o1), R::produces(s.skip(mid as int), o2)]
            R::produces(s.take(mid as int), o1) && R::produces(s.skip(mid as int), o2)
                ==> R::Scalar::combinable(o1, o2)
    } else {
        R::accepts(s)
    }
}

/// The halves of an expression match the halves of a reduction that expects `expected`
/// elements: each pair has half of the common elements, in order.
proof fn lemma_halves<X: Expression>(e: X, expected: Length, e_low: X, e_high: X)
    requires
        consumable(e, expected),
        pieces(e, e.spec_length().split_point(false), e_low, e_high),
    ensures
        ({
            let n = common_len(e.spec_length(), expected);
            let mid = n / 2;
            let lo_len = expected.prefix(expected.split_point(false));
            let hi_len = expected.suffix(expected.split_point(false));
            &&& consumable(e_low, lo_len)
            &&& consumable(e_high, hi_len)
            &&& common_len(e_low.spec_length(), lo_len) == mid
            &&& common_len(e_high.spec_length(), hi_len) == n - mid
            &&& elements(e_low, mid) == elements(e, n).take(mid as int)
            &&& elements(e_high, (n - mid) as nat) == elements(e, n).skip(mid as int)
        }),
{
    let n = common_len(e.spec_length(), expected);
    let mid = n / 2;
    let k = e.spec_length().split_point(false);
    assert(e.spec_length() is Finite ==> k == mid);
    assert forall|i: int| 0 <= i < n - mid implies e_high.spec_at(i) == e.spec_at(mid + i)
        && e_high.defined_at(i) == e.defined_at(mid + i) by {
        if e.spec_length() is Infinite {
            e.lemma_unbounded_uniform(k + i, mid + i);
        }
    }
    assert forall|i: int| 0 <= i < mid implies e_low.defined_at(i) by {
        assert(e.defined_at(i));
    }
    assert forall|i: int| 0 <= i < n - mid implies e_high.defined_at(i) by {
        assert(e.defined_at(mid + i));
    }
    assert(elements(e_low, mid) =~= elements(e, n).take(mid as int));
    assert(elements(e_high, (n - mid) as nat) =~= elements(e, n).skip(mid as int));
}

/// Reduces `e`, cutting it in halves evaluated in parallel while it is longer than `threshold`.
fn eval_inner<X, R>(e: X, threshold: usize, reduce: R) -> (out: R::Output) where
    X: Expression + Send,
    R: Reduce<X::Element> + Send,
    X::Element: Send,
    R::Scalar: Send,
    R::Output: Send,

    requires
        reduce.inv(),
        consumable(e, reduce.spec_expected_length()),
        threshold > 0,
        evaluation_ok::<X::Element, R>(
            elements(e, common_len(e.spec_length(), reduce.spec_expected_length())),
            threshold as nat,
        ),
    ensures
        R::produces(elements(e, common_len(e.spec_length(), reduce.spec_expected_length())), out),
        reduce.target() is Some ==> stored(
            (reduce.target()->0)@,
            final(reduce.target()->0)@,
            elements(e, common_len(e.spec_length(), reduce.spec_expected_length())),
        ),
    decreases common_len(e.spec_length(), reduce.spec_expected_length()),
{
    let len = get_len(e.length(), reduce.expected_length());
    let ghost s = elements(e, len as nat);
    if len > threshold {
        let ghost whole = e;
        let ghost expected = reduce.spec_expected_length();
        let ghost t = reduce.target();
        proof {
            reduce.lemma_target_length();
        }
        let (low, high, scalar) = reduce.split();
        let (e_low, e_high) = e.split(false);
        let ghost mid = len / 2;
        let ghost t_low = low.target();
        let ghost t_high = high.target();
        proof {
            lemma_halves(whole, expected, e_low, e_high);
            low.lemma_target_length();
            high.lemma_target_length();
        }
        let f_low = move || -> (r: R::Output)
            requires
                low.target() == t_low,
                low.inv(),
                consumable(e_low, low.spec_expected_length()),
                evaluation_ok::<X::Element, R>(
                    elements(e_low, common_len(e_low.spec_length(), low.spec_expected_length())),
                    threshold as nat,
                ),
            ensures
                R::produces(
                    elements(e_low, common_len(e_low.spec_length(), low.spec_expected_length())),
                    r,
                ),
                t_low is Some ==> stored(
                    (t_low->0)@,
                    final(t_low->0)@,
                    elements(e_low, common_len(e_low.spec_length(), low.spec_expected_length())),
                ),
            { eval_inner(e_low, threshold, low) };
        let f_high = move || -> (r: R::Output)
            requires
                high.target() == t_high,
                high.inv(),
                consumable(e_high, high.spec_expected_length()),
                evaluation_ok::<X::Element, R>(
                    elements(e_high, common_len(e_high.spec_length(), high.spec_expected_length())),
                    threshold as nat,
                ),
            ensures
                R::produces(
                    elements(e_high, common_len(e_high.spec_length(), high.spec_expected_length())),
                    r,
                ),
                t_high is Some ==> stored(
                    (t_high->0)@,
                    final(t_high->0)@,
                    elements(e_high, common_len(e_high.spec_length(), high.spec_expected_length())),
                ),
            { eval_inner(e_high, threshold, high) };
        let (a, b) = join(f_low, f_high);
        proof {
            R::lemma_combine(s.take(mid as int), s.skip(mid as int), a, b);
            assert(s.take(mid as int) + s.skip(mid as int) =~= s);
            if t is Some {
                assert((t_low->0)@.skip(mid as int) =~= Seq::<X::Element>::empty());
                assert((t_high->0)@.skip((len - mid) as int) =~= Seq::<X::Element>::empty());
                assert((t->0)@.skip(len as int) =~= Seq::<X::Element>::empty());
            }
        }
        scalar.combine(a, b)
    } else {
        reduce.reduce(e)
    }
}

/// The cutting size used by an evaluation of `len` elements.
fn threshold(len: usize) -> (t: usize)
    ensures
        t == threshold_for(len as nat),
        t > 0,
{
    if len / MAX_COUNT > MIN_THRESHOLD {
        len / MAX_COUNT
    } else {
        MIN_THRESHOLD
    }
}

/// Every evaluation that stores into a slice is free of faults.
pub proof fn lemma_write_evaluation_ok<'a, T>(s: Seq<T>, threshold: nat)
    ensures
        evaluation_ok::<T, Write<'a, T>>(s, threshold),
    decreases s.len(),
{
    if 0 < threshold < s.len() {
        let mid = s.len() / 2;
        lemma_write_evaluation_ok::<T>(s.take(mid as int), threshold);
        lemma_write_evaluation_ok::<T>(s.skip(mid as int), threshold);
    }
}

/// Reduces the elements of `e` with `reduce`, in parallel.
///
/// The result is what reducing all common elements in one pass gives.
pub fn evaluate<X, R>(e: X, reduce: R) -> (out: R::Output) where
    X: Expression + Send,
    R: Reduce<X::Element> + Send,
    X::Element: Send,
    R::Scalar: Send,
    R::Output: Send,

    requires
        reduce.inv(),
        consumable(e, reduce.spec_expected_length()),
        evaluation_ok::<X::Element, R>(
            elements(e, common_len(e.spec_length(), reduce.spec_expected_length())),
            threshold_for(common_len(e.spec_length(), reduce.spec_expected_length())),
        ),
    ensures
        R::produces(elements(e, common_len(e.spec_length(), reduce.spec_expected_length())), out),
        reduce.target() is Some ==> stored(
            (reduce.target()->0)@,
            final(reduce.target()->0)@,
            elements(e, common_len(e.spec_length(), reduce.spec_expected_length())),
        ),
{
    let len = get_len(e.length(), reduce.expected_length());
    eval_inner(e, threshold(len), reduce)
}

} // verus!
