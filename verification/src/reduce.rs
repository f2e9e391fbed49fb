//! Reductions: what an evaluation does with the elements of an expression.
use vstd::prelude::*;
use crate::{Expression, Length, elements, defined_below};
use crate::evaluation::{get_len, evaluation_ok};

verus! {

/// Joins the results of reducing two adjacent runs of elements.
pub trait ReduceScalar<X> {
    /// The two results can be joined.
    spec fn combinable(a: X, b: X) -> bool;

    spec fn combined(a: X, b: X) -> X;

    fn combine(self, a: X, b: X) -> (r: X)
        requires
            Self::combinable(a, b),
        ensures
            r == Self::combined(a, b),
    ;
}

impl ReduceScalar<()> for () {
    open spec fn combinable(a: (), b: ()) -> bool {
        true
    }

    open spec fn combined(a: (), b: ()) -> () {
        ()
    }

    fn combine(self, a: (), b: ()) -> (r: ()) {
        ()
    }
}

/// The elements common to an expression of length `a` and a reduction expecting `b`.
pub open spec fn common_len(a: Length, b: Length) -> nat {
    match a.spec_shorter(b) {
        Length::Finite(n) => n as nat,
        Length::Infinite => 0,
    }
}

/// `e` can be reduced, one pass, by a reduction that expects `expected` elements: it is
/// consistent, the two are not both unbounded, and their common elements can be computed.
pub open spec fn reducible<X: Expression>(e: X, expected: Length) -> bool {
    &&& e.inv()
    &&& !(e.spec_length() is Infinite && expected is Infinite)
    &&& defined_below(e, common_len(e.spec_length(), expected) as int)
}

/// `e` can be evaluated by a reduction that expects `expected` elements: it is
/// reducible, and the two lengths are compatible.
pub open spec fn consumable<X: Expression>(e: X, expected: Length) -> bool {
    &&& reducible(e, expected)
    &&& e.spec_length().spec_compatible(expected)
}

/// A slice that held `before` holds `after` once the elements `s` were stored at its
/// start: the rest of it is unchanged.
pub open spec fn stored<T>(before: Seq<T>, after: Seq<T>, s: Seq<T>) -> bool {
    &&& s.len() <= before.len()
    &&& after == s + before.skip(s.len() as int)
}

/// A way of consuming the elements of an expression.
///
/// `produces(s, out)` says that `out` is the result of reducing the elements `s`;
/// `accepts(s)` says that reducing `s` in one pass, first to last, is free of faults.
/// A reduction may also store the elements into a slice, its `target`.
/// A reduction can be cut in two; the results of the two parts are then joined by
/// the `Scalar`, and `lemma_combine` shows that this agrees with reducing the whole.
pub trait Reduce<T>: Sized {
    type Output;
    type Scalar: ReduceScalar<Self::Output>;

    spec fn inv(&self) -> bool;

    spec fn spec_expected_length(&self) -> Length;

    /// The slice into which the reduction stores the elements, if it stores them.
    spec fn target(&self) -> Option<&mut [T]>;

    spec fn accepts(s: Seq<T>) -> bool;

    spec fn produces(s: Seq<T>, out: Self::Output) -> bool;

    /// Joining the results of two adjacent runs gives the result of the whole run.
    proof fn lemma_combine(s1: Seq<T>, s2: Seq<T>, o1: Self::Output, o2: Self::Output)
        requires
            Self::produces(s1, o1),
            Self::produces(s2, o2),
            Self::Scalar::combinable(o1, o2),
        ensures
            Self::produces(s1 + s2, Self::Scalar::combined(o1, o2)),
    ;

    /// A reduction that stores its elements expects as many as its target holds.
    proof fn lemma_target_length(&self)
        requires
            self.inv(),
        ensures
            self.target() is Some ==> (self.target()->0)@.len() <= usize::MAX
                && self.spec_expected_length() == Length::Finite(
                (self.target()->0)@.len() as usize,
            ),
    ;

    fn expected_length(&self) -> (l: Length)
        requires
            self.inv(),
        ensures
            l == self.spec_expected_length(),
    ;

    /// Cuts the reduction in two halves (the first one rounded down), and gives the
    /// way to join their results. The target, if any, is cut at the same place.
    fn split(self) -> (r: (Self, Self, Self::Scalar))
        requires
            self.inv(),
        ensures
            r.0.inv(),
            r.1.inv(),
            r.0.spec_expected_length() == self.spec_expected_length().prefix(
                self.spec_expected_length().split_point(false),
            ),
            r.1.spec_expected_length() == self.spec_expected_length().suffix(
                self.spec_expected_length().split_point(false),
            ),
            r.0.target() is Some <==> self.target() is Some,
            r.1.target() is Some <==> self.target() is Some,
            self.target() is Some ==> (r.0.target()->0)@ == (self.target()->0)@.take(
                self.spec_expected_length().split_point(false),
            ),
            self.target() is Some ==> (r.1.target()->0)@ == (self.target()->0)@.skip(
                self.spec_expected_length().split_point(false),
            ),
            self.target() is Some ==> final(self.target()->0)@ == final(r.0.target()->0)@
                + final(r.1.target()->0)@,
    ;

    /// Consumes the common elements of `e` in one pass; a target gets them stored at
    /// its start.
    fn reduce<X: Expression<Element = T>>(self, e: X) -> (out: Self::Output)
        requires
            self.inv(),
            reducible(e, self.spec_expected_length()),
            Self::accepts(
                elements(e, common_len(e.spec_length(), self.spec_expected_length())),
            ),
        ensures
            Self::produces(elements(e, common_len(e.spec_length(), self.spec_expected_length())), out),
            self.target() is Some ==> stored(
                (self.target()->0)@,
                final(self.target()->0)@,
                elements(e, common_len(e.spec_length(), self.spec_expected_length())),
            ),
    ;
}

/// Stores the elements of an expression into a slice, in place.
pub struct Write<'a, T>(pub &'a mut [T]);

impl<'a, T> Reduce<T> for Write<'a, T> {
    type Output = ();
    type Scalar = ();

    open spec fn inv(&self) -> bool {
        self.0@.len() <= usize::MAX
    }

    open spec fn spec_expected_length(&self) -> Length {
        Length::Finite(self.0@.len() as usize)
    }

    open spec fn target(&self) -> Option<&mut [T]> {
        Some(self.0)
    }

    open spec fn accepts(s: Seq<T>) -> bool {
        true
    }

    open spec fn produces(s: Seq<T>, out: ()) -> bool {
        true
    }

    proof fn lemma_combine(s1: Seq<T>, s2: Seq<T>, o1: (), o2: ()) {
    }

    proof fn lemma_target_length(&self) {
    }

    fn expected_length(&self) -> (l: Length) {
        Length::Finite(self.0.len())
    }

    fn split(self) -> (r: (Self, Self, ())) {
        let Write(out) = self;
        let n = out.len();
        let (lo, hi) = out.split_at_mut(n / 2);
        (Write(lo), Write(hi), ())
    }

    fn reduce<X: Expression<Element = T>>(self, e: X) -> (out: ()) {
        let Write(out) = self;
        let m = out.len();
        let n = get_len(e.length(), Length::Finite(m));
        let ghost before = out@;
        let ghost s = elements(e, n as nat);
        let mut i: usize = 0;
        while i < n
            invariant
                i <= n,
                n <= m,
                m == before.len(),
                reducible(e, Length::Finite(m)),
                common_len(e.spec_length(), Length::Finite(m)) == n,
                s == elements(e, n as nat),
                out@ == s.take(i as int) + before.skip(i as int),
            decreases n - i,
        {
            assert(e.defined_at(i as int));
            let v = e.value_at(i);
            out[i] = v;
            assert(s.take(i + 1) + before.skip(i + 1) =~= (s.take(i as int) + before.skip(
                i as int,
            )).update(i as int, v));
            i += 1;
        }
        assert(s.take(n as int) =~= s);
    }
}

/// Adds up the elements of an expression.
#[derive(Copy, Clone)]
pub struct Sum;

/// Element types that `Sum` adds up: the primitive integers.
///
/// `as_int` is the mathematical value of an element and `fits` the range of the type.
pub trait Summand: Copy {
    spec fn as_int(self) -> int;

    spec fn fits(v: int) -> bool;

    spec fn spec_plus(self, other: Self) -> Self;

    proof fn lemma_in_range(self)
        ensures
            Self::fits(self.as_int()),
    ;

    proof fn lemma_plus(self, other: Self)
        requires
            Self::fits(self.as_int() + other.as_int()),
        ensures
            self.spec_plus(other).as_int() == self.as_int() + other.as_int(),
    ;

    fn zero() -> (r: Self)
        ensures
            r.as_int() == 0,
    ;

    fn plus(self, other: Self) -> (r: Self)
        requires
            Self::fits(self.as_int() + other.as_int()),
        ensures
            r == self.spec_plus(other),
            r.as_int() == self.as_int() + other.as_int(),
    ;
}

/// The mathematical sum of a run of elements.
pub open spec fn sum_of<T: Summand>(s: Seq<T>) -> int
    decreases s.len(),
{
    if s.len() == 0 {
        0
    } else {
        sum_of(s.drop_last()) + s.last().as_int()
    }
}

/// Adding up two adjacent runs separately gives the sum of the whole run.
pub proof fn lemma_sum_of_append<T: Summand>(s1: Seq<T>, s2: Seq<T>)
    ensures
        sum_of(s1 + s2) == sum_of(s1) + sum_of(s2),
    decreases s2.len(),
{
    if s2.len() == 0 {
        assert(s1 + s2 =~= s1);
    } else {
        lemma_sum_of_append(s1, s2.drop_last());
        assert((s1 + s2).drop_last() =~= s1 + s2.drop_last());
    }
}

/// Every running total of `s`, from the first element on, fits in the element type.
pub open spec fn running_sums_fit<T: Summand>(s: Seq<T>) -> bool {
    forall|k: int| 0 <= k <= s.len() ==> #[trigger] T::fits(sum_of(s.take(k)))
}

/// Every run of consecutive elements of `s` has a sum that fits in the element type.
pub open spec fn all_runs_fit<T: Summand>(s: Seq<T>) -> bool {
    forall|i: int, j: int| 0 <= i <= j <= s.len() ==> #[trigger] T::fits(sum_of(s.subrange(i, j)))
}

/// When every run of elements has a sum that fits, `Sum` evaluates them without
/// overflow, however the evaluation cuts them.
pub proof fn lemma_sum_evaluation_ok<T: Summand>(s: Seq<T>, threshold: nat)
    requires
        all_runs_fit(s),
    ensures
        evaluation_ok::<T, Sum>(s, threshold),
    decreases s.len(),
{
    if 0 < threshold < s.len() {
        let mid = s.len() / 2;
        let lo = s.take(mid as int);
        let hi = s.skip(mid as int);
        assert forall|i: int, j: int| 0 <= i <= j <= lo.len() implies #[trigger] T::fits(
            sum_of(lo.subrange(i, j)),
        ) by {
            assert(lo.subrange(i, j) =~= s.subrange(i, j));
        }
        assert forall|i: int, j: int| 0 <= i <= j <= hi.len() implies #[trigger] T::fits(
            sum_of(hi.subrange(i, j)),
        ) by {
            assert(hi.subrange(i, j) =~= s.subrange(mid + i, mid + j));
        }
        lemma_sum_evaluation_ok(lo, threshold);
        lemma_sum_evaluation_ok(hi, threshold);
        lemma_sum_of_append(lo, hi);
        assert(lo + hi =~= s);
        assert(s.subrange(0, s.len() as int) =~= s);
        assert(T::fits(sum_of(s.subrange(0, s.len() as int))));
    } else {
        assert forall|k: int| 0 <= k <= s.len() implies #[trigger] T::fits(sum_of(s.take(k))) by {
            assert(s.take(k) =~= s.subrange(0, k));
        }
    }
}

impl<T: Summand> ReduceScalar<T> for Sum {
    open spec fn combinable(a: T, b: T) -> bool {
        T::fits(a.as_int() + b.as_int())
    }

    open spec fn combined(a: T, b: T) -> T {
        a.spec_plus(b)
    }

    fn combine(self, a: T, b: T) -> (r: T) {
        a.plus(b)
    }
}

impl<T: Summand> Reduce<T> for Sum {
    type Output = T;
    type Scalar = Sum;

    open spec fn inv(&self) -> bool {
        true
    }

    open spec fn spec_expected_length(&self) -> Length {
        Length::Infinite
    }

    open spec fn target(&self) -> Option<&mut [T]> {
        None
    }

    open spec fn accepts(s: Seq<T>) -> bool {
        running_sums_fit(s)
    }

    open spec fn produces(s: Seq<T>, out: T) -> bool {
        out.as_int() == sum_of(s)
    }

    proof fn lemma_combine(s1: Seq<T>, s2: Seq<T>, o1: T, o2: T) {
        lemma_sum_of_append(s1, s2);
        assert(<Sum as ReduceScalar<T>>::combinable(o1, o2));
        assert(T::fits(o1.as_int() + o2.as_int()));
        o1.lemma_plus(o2);
    }

    proof fn lemma_target_length(&self) {
    }

    fn expected_length(&self) -> (l: Length) {
        Length::Infinite
    }

    fn split(self) -> (r: (Self, Self, Sum)) {
        (Sum, Sum, Sum)
    }

    fn reduce<X: Expression<Element = T>>(self, e: X) -> (out: T) {
        let n = get_len(e.length(), Length::Infinite);
        let ghost s = elements(e, n as nat);
        let mut acc = T::zero();
        let mut i: usize = 0;
        while i < n
            invariant
                i <= n,
                reducible(e, Length::Infinite),
                common_len(e.spec_length(), Length::Infinite) == n,
                s == elements(e, n as nat),
                running_sums_fit(s),
                acc.as_int() == sum_of(s.take(i as int)),
            decreases n - i,
        {
            assert(e.defined_at(i as int));
            let v = e.value_at(i);
            assert(s.take(i + 1).drop_last() =~= s.take(i as int));
            assert(T::fits(sum_of(s.take(i + 1))));
            acc = acc.plus(v);
            i += 1;
        }
        assert(s.take(n as int) =~= s);
        acc
    }
}

impl Summand for i8 {
    open spec fn as_int(self) -> int {
        self as int
    }

    open spec fn fits(v: int) -> bool {
        i8::MIN <= v && v <= i8::MAX
    }

    open spec fn spec_plus(self, other: Self) -> Self {
        (self + other) as i8
    }

    proof fn lemma_in_range(self) {
    }

    proof fn lemma_plus(self, other: Self) {
    }

    fn zero() -> (r: Self) {
        0
    }

    fn plus(self, other: Self) -> (r: Self) {
        self + other
    }
}

impl Summand for i16 {
    open spec fn as_int(self) -> int {
        self as int
    }

    open spec fn fits(v: int) -> bool {
        i16::MIN <= v && v <= i16::MAX
    }

    open spec fn spec_plus(self, other: Self) -> Self {
        (self + other) as i16
    }

    proof fn lemma_in_range(self) {
    }

    proof fn lemma_plus(self, other: Self) {
    }

    fn zero() -> (r: Self) {
        0
    }

    fn plus(self, other: Self) -> (r: Self) {
        self + other
    }
}

impl Summand for i32 {
    open spec fn as_int(self) -> int {
        self as int
    }

    open spec fn fits(v: int) -> bool {
        i32::MIN <= v && v <= i32::MAX
    }

    open spec fn spec_plus(self, other: Self) -> Self {
        (self + other) as i32
    }

    proof fn lemma_in_range(self) {
    }

    proof fn lemma_plus(self, other: Self) {
    }

    fn zero() -> (r: Self) {
        0
    }

    fn plus(self, other: Self) -> (r: Self) {
        self + other
    }
}

impl Summand for i64 {
    open spec fn as_int(self) -> int {
        self as int
    }

    open spec fn fits(v: int) -> bool {
        i64::MIN <= v && v <= i64::MAX
    }

    open spec fn spec_plus(self, other: Self) -> Self {
        (self + other) as i64
    }

    proof fn lemma_in_range(self) {
    }

    proof fn lemma_plus(self, other: Self) {
    }

    fn zero() -> (r: Self) {
        0
    }

    fn plus(self, other: Self) -> (r: Self) {
        self + other
    }
}

impl Summand for i128 {
    open spec fn as_int(self) -> int {
        self as int
    }

    open spec fn fits(v: int) -> bool {
        i128::MIN <= v && v <= i128::MAX
    }

    open spec fn spec_plus(self, other: Self) -> Self {
        (self + other) as i128
    }

    proof fn lemma_in_range(self) {
    }

    proof fn lemma_plus(self, other: Self) {
    }

    fn zero() -> (r: Self) {
        0
    }

    fn plus(self, other: Self) -> (r: Self) {
        self + other
    }
}

impl Summand for isize {
    open spec fn as_int(self) -> int {
        self as int
    }

    open spec fn fits(v: int) -> bool {
        isize::MIN <= v && v <= isize::MAX
    }

    open spec fn spec_plus(self, other: Self) -> Self {
        (self + other) as isize
    }

    proof fn lemma_in_range(self) {
    }

    proof fn lemma_plus(self, other: Self) {
    }

    fn zero() -> (r: Self) {
        0
    }

    fn plus(self, other: Self) -> (r: Self) {
        self + other
    }
}

impl Summand for u8 {
    open spec fn as_int(self) -> int {
        self as int
    }

    open spec fn fits(v: int) -> bool {
        0 <= v && v <= u8::MAX
    }

    open spec fn spec_plus(self, other: Self) -> Self {
        (self + other) as u8
    }

    proof fn lemma_in_range(self) {
    }

    proof fn lemma_plus(self, other: Self) {
    }

    fn zero() -> (r: Self) {
        0
    }

    fn plus(self, other: Self) -> (r: Self) {
        self + other
    }
}

impl Summand for u16 {
    open spec fn as_int(self) -> int {
        self as int
    }

    open spec fn fits(v: int) -> bool {
        0 <= v && v <= u16::MAX
    }

    open spec fn spec_plus(self, other: Self) -> Self {
        (self + other) as u16
    }

    proof fn lemma_in_range(self) {
    }

    proof fn lemma_plus(self, other: Self) {
    }

    fn zero() -> (r: Self) {
        0
    }

    fn plus(self, other: Self) -> (r: Self) {
        self + other
    }
}

impl Summand for u32 {
    open spec fn as_int(self) -> int {
        self as int
    }

    open spec fn fits(v: int) -> bool {
        0 <= v && v <= u32::MAX
    }

    open spec fn spec_plus(self, other: Self) -> Self {
        (self + other) as u32
    }

    proof fn lemma_in_range(self) {
    }

    proof fn lemma_plus(self, other: Self) {
    }

    fn zero() -> (r: Self) {
        0
    }

    fn plus(self, other: Self) -> (r: Self) {
        self + other
    }
}

impl Summand for u64 {
    open spec fn as_int(self) -> int {
        self as int
    }

    open spec fn fits(v: int) -> bool {
        0 <= v && v <= u64::MAX
    }

    open spec fn spec_plus(self, other: Self) -> Self {
        (self + other) as u64
    }

    proof fn lemma_in_range(self) {
    }

    proof fn lemma_plus(self, other: Self) {
    }

    fn zero() -> (r: Self) {
        0
    }

    fn plus(self, other: Self) -> (r: Self) {
        self + other
    }
}

impl Summand for u128 {
    open spec fn as_int(self) -> int {
        self as int
    }

    open spec fn fits(v: int) -> bool {
        0 <= v && v <= u128::MAX
    }

    open spec fn spec_plus(self, other: Self) -> Self {
        (self + other) as u128
    }

    proof fn lemma_in_range(self) {
    }

    proof fn lemma_plus(self, other: Self) {
    }

    fn zero() -> (r: Self) {
        0
    }

    fn plus(self, other: Self) -> (r: Self) {
        self + other
    }
}

impl Summand for usize {
    open spec fn as_int(self) -> int {
        self as int
    }

    open spec fn fits(v: int) -> bool {
        0 <= v && v <= usize::MAX
    }

    open spec fn spec_plus(self, other: Self) -> Self {
        (self + other) as usize
    }

    proof fn lemma_in_range(self) {
    }

    proof fn lemma_plus(self, other: Self) {
    }

    fn zero() -> (r: Self) {
        0
    }

    fn plus(self, other: Self) -> (r: Self) {
        self + other
    }
}
} // verus!
