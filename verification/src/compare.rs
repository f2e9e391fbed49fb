//! The comparison operators, element by element.
use vstd::prelude::*;
use vstd::std_specs::cmp::PartialEqSpec;
use vstd::std_specs::cmp::PartialOrdSpec;
use vstd::std_specs::cmp::PartialEqIs;
use vstd::std_specs::cmp::PartialOrdIs;
use crate::Expression;
use crate::operator::{Ne, Lt, Le, Gt, Ge};
use crate::iterators::{
    BinOp, EqEq, BangEq, LessThan, LessThanEq, GreaterThan, GreaterThanEq,
};

verus! {

impl<A: PartialEq<B>, B> BinOp<A, B> for EqEq {
    type Output = bool;

    open spec fn admits(&self, a: A, b: B) -> bool {
        A::obeys_eq_spec()
    }

    open spec fn result(&self, a: A, b: B) -> bool {
        a.is_eq(&b)
    }

    fn operate(&self, a: A, b: B) -> (r: bool) {
        a == b
    }
}

impl<A: PartialEq<B>, B> BinOp<A, B> for BangEq {
    type Output = bool;

    open spec fn admits(&self, a: A, b: B) -> bool {
        A::obeys_eq_spec()
    }

    open spec fn result(&self, a: A, b: B) -> bool {
        a.is_ne(&b)
    }

    fn operate(&self, a: A, b: B) -> (r: bool) {
        a != b
    }
}

impl<A: PartialOrd<B>, B> BinOp<A, B> for LessThan {
    type Output = bool;

    open spec fn admits(&self, a: A, b: B) -> bool {
        A::obeys_partial_cmp_spec()
    }

    open spec fn result(&self, a: A, b: B) -> bool {
        a.is_lt(&b)
    }

    fn operate(&self, a: A, b: B) -> (r: bool) {
        a < b
    }
}

impl<A: PartialOrd<B>, B> BinOp<A, B> for LessThanEq {
    type Output = bool;

    open spec fn admits(&self, a: A, b: B) -> bool {
        A::obeys_partial_cmp_spec()
    }

    open spec fn result(&self, a: A, b: B) -> bool {
        a.is_le(&b)
    }

    fn operate(&self, a: A, b: B) -> (r: bool) {
        a <= b
    }
}

impl<A: PartialOrd<B>, B> BinOp<A, B> for GreaterThan {
    type Output = bool;

    open spec fn admits(&self, a: A, b: B) -> bool {
        A::obeys_partial_cmp_spec()
    }

    open spec fn result(&self, a: A, b: B) -> bool {
        a.is_gt(&b)
    }

    fn operate(&self, a: A, b: B) -> (r: bool) {
        a > b
    }
}

impl<A: PartialOrd<B>, B> BinOp<A, B> for GreaterThanEq {
    type Output = bool;

    open spec fn admits(&self, a: A, b: B) -> bool {
        A::obeys_partial_cmp_spec()
    }

    open spec fn result(&self, a: A, b: B) -> bool {
        a.is_ge(&b)
    }

    fn operate(&self, a: A, b: B) -> (r: bool) {
        a >= b
    }
}

/// On `i8` elements the comparison operators are the integer comparisons: each is
/// defined everywhere, `<` and `>` are strict, and `<=`, `>=` also hold for equal elements.
pub proof fn lemma_compare_i8(a: i8, b: i8)
    ensures
        BinOp::<i8, i8>::admits(&EqEq, a, b) && BinOp::<i8, i8>::result(&EqEq, a, b) == (a == b),
        BinOp::<i8, i8>::admits(&BangEq, a, b) && BinOp::<i8, i8>::result(&BangEq, a, b) == (a != b),
        BinOp::<i8, i8>::admits(&LessThan, a, b) && BinOp::<i8, i8>::result(&LessThan, a, b) == (a < b),
        BinOp::<i8, i8>::admits(&LessThanEq, a, b) && BinOp::<i8, i8>::result(&LessThanEq, a, b) == (a <= b),
        BinOp::<i8, i8>::admits(&GreaterThan, a, b) && BinOp::<i8, i8>::result(&GreaterThan, a, b) == (a > b),
        BinOp::<i8, i8>::admits(&GreaterThanEq, a, b) && BinOp::<i8, i8>::result(&GreaterThanEq, a, b) == (a >= b),
{
}

/// On `i16` elements the comparison operators are the integer comparisons: each is
/// defined everywhere, `<` and `>` are strict, and `<=`, `>=` also hold for equal elements.
pub proof fn lemma_compare_i16(a: i16, b: i16)
    ensures
        BinOp::<i16, i16>::admits(&EqEq, a, b) && BinOp::<i16, i16>::result(&EqEq, a, b) == (a == b),
        BinOp::<i16, i16>::admits(&BangEq, a, b) && BinOp::<i16, i16>::result(&BangEq, a, b) == (a != b),
        BinOp::<i16, i16>::admits(&LessThan, a, b) && BinOp::<i16, i16>::result(&LessThan, a, b) == (a < b),
        BinOp::<i16, i16>::admits(&LessThanEq, a, b) && BinOp::<i16, i16>::result(&LessThanEq, a, b) == (a <= b),
        BinOp::<i16, i16>::admits(&GreaterThan, a, b) && BinOp::<i16, i16>::result(&GreaterThan, a, b) == (a > b),
        BinOp::<i16, i16>::admits(&GreaterThanEq, a, b) && BinOp::<i16, i16>::result(&GreaterThanEq, a, b) == (a >= b),
{
}

/// On `i32` elements the comparison operators are the integer comparisons: each is
/// defined everywhere, `<` and `>` are strict, and `<=`, `>=` also hold for equal elements.
pub proof fn lemma_compare_i32(a: i32, b: i32)
    ensures
        BinOp::<i32, i32>::admits(&EqEq, a, b) && BinOp::<i32, i32>::result(&EqEq, a, b) == (a == b),
        BinOp::<i32, i32>::admits(&BangEq, a, b) && BinOp::<i32, i32>::result(&BangEq, a, b) == (a != b),
        BinOp::<i32, i32>::admits(&LessThan, a, b) && BinOp::<i32, i32>::result(&LessThan, a, b) == (a < b),
        BinOp::<i32, i32>::admits(&LessThanEq, a, b) && BinOp::<i32, i32>::result(&LessThanEq, a, b) == (a <= b),
        BinOp::<i32, i32>::admits(&GreaterThan, a, b) && BinOp::<i32, i32>::result(&GreaterThan, a, b) == (a > b),
        BinOp::<i32, i32>::admits(&GreaterThanEq, a, b) && BinOp::<i32, i32>::result(&GreaterThanEq, a, b) == (a >= b),
{
}

/// On `i64` elements the comparison operators are the integer comparisons: each is
/// defined everywhere, `<` and `>` are strict, and `<=`, `>=` also hold for equal elements.
pub proof fn lemma_compare_i64(a: i64, b: i64)
    ensures
        BinOp::<i64, i64>::admits(&EqEq, a, b) && BinOp::<i64, i64>::result(&EqEq, a, b) == (a == b),
        BinOp::<i64, i64>::admits(&BangEq, a, b) && BinOp::<i64, i64>::result(&BangEq, a, b) == (a != b),
        BinOp::<i64, i64>::admits(&LessThan, a, b) && BinOp::<i64, i64>::result(&LessThan, a, b) == (a < b),
        BinOp::<i64, i64>::admits(&LessThanEq, a, b) && BinOp::<i64, i64>::result(&LessThanEq, a, b) == (a <= b),
        BinOp::<i64, i64>::admits(&GreaterThan, a, b) && BinOp::<i64, i64>::result(&GreaterThan, a, b) == (a > b),
        BinOp::<i64, i64>::admits(&GreaterThanEq, a, b) && BinOp::<i64, i64>::result(&GreaterThanEq, a, b) == (a >= b),
{
}

/// On `i128` elements the comparison operators are the integer comparisons: each is
/// defined everywhere, `<` and `>` are strict, and `<=`, `>=` also hold for equal elements.
pub proof fn lemma_compare_i128(a: i128, b: i128)
    ensures
        BinOp::<i128, i128>::admits(&EqEq, a, b) && BinOp::<i128, i128>::result(&EqEq, a, b) == (a == b),
        BinOp::<i128, i128>::admits(&BangEq, a, b) && BinOp::<i128, i128>::result(&BangEq, a, b) == (a != b),
        BinOp::<i128, i128>::admits(&LessThan, a, b) && BinOp::<i128, i128>::result(&LessThan, a, b) == (a < b),
        BinOp::<i128, i128>::admits(&LessThanEq, a, b) && BinOp::<i128, i128>::result(&LessThanEq, a, b) == (a <= b),
        BinOp::<i128, i128>::admits(&GreaterThan, a, b) && BinOp::<i128, i128>::result(&GreaterThan, a, b) == (a > b),
        BinOp::<i128, i128>::admits(&GreaterThanEq, a, b) && BinOp::<i128, i128>::result(&GreaterThanEq, a, b) == (a >= b),
{
}

/// On `isize` elements the comparison operators are the integer comparisons: each is
/// defined everywhere, `<` and `>` are strict, and `<=`, `>=` also hold for equal elements.
pub proof fn lemma_compare_isize(a: isize, b: isize)
    ensures
        BinOp::<isize, isize>::admits(&EqEq, a, b) && BinOp::<isize, isize>::result(&EqEq, a, b) == (a == b),
        BinOp::<isize, isize>::admits(&BangEq, a, b) && BinOp::<isize, isize>::result(&BangEq, a, b) == (a != b),
        BinOp::<isize, isize>::admits(&LessThan, a, b) && BinOp::<isize, isize>::result(&LessThan, a, b) == (a < b),
        BinOp::<isize, isize>::admits(&LessThanEq, a, b) && BinOp::<isize, isize>::result(&LessThanEq, a, b) == (a <= b),
        BinOp::<isize, isize>::admits(&GreaterThan, a, b) && BinOp::<isize, isize>::result(&GreaterThan, a, b) == (a > b),
        BinOp::<isize, isize>::admits(&GreaterThanEq, a, b) && BinOp::<isize, isize>::result(&GreaterThanEq, a, b) == (a >= b),
{
}

/// On `u8` elements the comparison operators are the integer comparisons: each is
/// defined everywhere, `<` and `>` are strict, and `<=`, `>=` also hold for equal elements.
pub proof fn lemma_compare_u8(a: u8, b: u8)
    ensures
        BinOp::<u8, u8>::admits(&EqEq, a, b) && BinOp::<u8, u8>::result(&EqEq, a, b) == (a == b),
        BinOp::<u8, u8>::admits(&BangEq, a, b) && BinOp::<u8, u8>::result(&BangEq, a, b) == (a != b),
        BinOp::<u8, u8>::admits(&LessThan, a, b) && BinOp::<u8, u8>::result(&LessThan, a, b) == (a < b),
        BinOp::<u8, u8>::admits(&LessThanEq, a, b) && BinOp::<u8, u8>::result(&LessThanEq, a, b) == (a <= b),
        BinOp::<u8, u8>::admits(&GreaterThan, a, b) && BinOp::<u8, u8>::result(&GreaterThan, a, b) == (a > b),
        BinOp::<u8, u8>::admits(&GreaterThanEq, a, b) && BinOp::<u8, u8>::result(&GreaterThanEq, a, b) == (a >= b),
{
}

/// On `u16` elements the comparison operators are the integer comparisons: each is
/// defined everywhere, `<` and `>` are strict, and `<=`, `>=` also hold for equal elements.
pub proof fn lemma_compare_u16(a: u16, b: u16)
    ensures
        BinOp::<u16, u16>::admits(&EqEq, a, b) && BinOp::<u16, u16>::result(&EqEq, a, b) == (a == b),
        BinOp::<u16, u16>::admits(&BangEq, a, b) && BinOp::<u16, u16>::result(&BangEq, a, b) == (a != b),
        BinOp::<u16, u16>::admits(&LessThan, a, b) && BinOp::<u16, u16>::result(&LessThan, a, b) == (a < b),
        BinOp::<u16, u16>::admits(&LessThanEq, a, b) && BinOp::<u16, u16>::result(&LessThanEq, a, b) == (a <= b),
        BinOp::<u16, u16>::admits(&GreaterThan, a, b) && BinOp::<u16, u16>::result(&GreaterThan, a, b) == (a > b),
        BinOp::<u16, u16>::admits(&GreaterThanEq, a, b) && BinOp::<u16, u16>::result(&GreaterThanEq, a, b) == (a >= b),
{
}

/// On `u32` elements the comparison operators are the integer comparisons: each is
/// defined everywhere, `<` and `>` are strict, and `<=`, `>=` also hold for equal elements.
pub proof fn lemma_compare_u32(a: u32, b: u32)
    ensures
        BinOp::<u32, u32>::admits(&EqEq, a, b) && BinOp::<u32, u32>::result(&EqEq, a, b) == (a == b),
        BinOp::<u32, u32>::admits(&BangEq, a, b) && BinOp::<u32, u32>::result(&BangEq, a, b) == (a != b),
        BinOp::<u32, u32>::admits(&LessThan, a, b) && BinOp::<u32, u32>::result(&LessThan, a, b) == (a < b),
        BinOp::<u32, u32>::admits(&LessThanEq, a, b) && BinOp::<u32, u32>::result(&LessThanEq, a, b) == (a <= b),
        BinOp::<u32, u32>::admits(&GreaterThan, a, b) && BinOp::<u32, u32>::result(&GreaterThan, a, b) == (a > b),
        BinOp::<u32, u32>::admits(&GreaterThanEq, a, b) && BinOp::<u32, u32>::result(&GreaterThanEq, a, b) == (a >= b),
{
}

/// On `u64` elements the comparison operators are the integer comparisons: each is
/// defined everywhere, `<` and `>` are strict, and `<=`, `>=` also hold for equal elements.
pub proof fn lemma_compare_u64(a: u64, b: u64)
    ensures
        BinOp::<u64, u64>::admits(&EqEq, a, b) && BinOp::<u64, u64>::result(&EqEq, a, b) == (a == b),
        BinOp::<u64, u64>::admits(&BangEq, a, b) && BinOp::<u64, u64>::result(&BangEq, a, b) == (a != b),
        BinOp::<u64, u64>::admits(&LessThan, a, b) && BinOp::<u64, u64>::result(&LessThan, a, b) == (a < b),
        BinOp::<u64, u64>::admits(&LessThanEq, a, b) && BinOp::<u64, u64>::result(&LessThanEq, a, b) == (a <= b),
        BinOp::<u64, u64>::admits(&GreaterThan, a, b) && BinOp::<u64, u64>::result(&GreaterThan, a, b) == (a > b),
        BinOp::<u64, u64>::admits(&GreaterThanEq, a, b) && BinOp::<u64, u64>::result(&GreaterThanEq, a, b) == (a >= b),
{
}

/// On `u128` elements the comparison operators are the integer comparisons: each is
/// defined everywhere, `<` and `>` are strict, and `<=`, `>=` also hold for equal elements.
pub proof fn lemma_compare_u128(a: u128, b: u128)
    ensures
        BinOp::<u128, u128>::admits(&EqEq, a, b) && BinOp::<u128, u128>::result(&EqEq, a, b) == (a == b),
        BinOp::<u128, u128>::admits(&BangEq, a, b) && BinOp::<u128, u128>::result(&BangEq, a, b) == (a != b),
        BinOp::<u128, u128>::admits(&LessThan, a, b) && BinOp::<u128, u128>::result(&LessThan, a, b) == (a < b),
        BinOp::<u128, u128>::admits(&LessThanEq, a, b) && BinOp::<u128, u128>::result(&LessThanEq, a, b) == (a <= b),
        BinOp::<u128, u128>::admits(&GreaterThan, a, b) && BinOp::<u128, u128>::result(&GreaterThan, a, b) == (a > b),
        BinOp::<u128, u128>::admits(&GreaterThanEq, a, b) && BinOp::<u128, u128>::result(&GreaterThanEq, a, b) == (a >= b),
{
}

/// On `usize` elements the comparison operators are the integer comparisons: each is
/// defined everywhere, `<` and `>` are strict, and `<=`, `>=` also hold for equal elements.
pub proof fn lemma_compare_usize(a: usize, b: usize)
    ensures
        BinOp::<usize, usize>::admits(&EqEq, a, b) && BinOp::<usize, usize>::result(&EqEq, a, b) == (a == b),
        BinOp::<usize, usize>::admits(&BangEq, a, b) && BinOp::<usize, usize>::result(&BangEq, a, b) == (a != b),
        BinOp::<usize, usize>::admits(&LessThan, a, b) && BinOp::<usize, usize>::result(&LessThan, a, b) == (a < b),
        BinOp::<usize, usize>::admits(&LessThanEq, a, b) && BinOp::<usize, usize>::result(&LessThanEq, a, b) == (a <= b),
        BinOp::<usize, usize>::admits(&GreaterThan, a, b) && BinOp::<usize, usize>::result(&GreaterThan, a, b) == (a > b),
        BinOp::<usize, usize>::admits(&GreaterThanEq, a, b) && BinOp::<usize, usize>::result(&GreaterThanEq, a, b) == (a >= b),
{
}

/// Comparing two expressions of `i32` elements with `==` gives, at every index of the
/// result, whether the left element is `==` the right one; it is defined wherever both
/// operands are.
pub proof fn lemma_eq_elements<X: Expression<Element = i32>, Y: Expression<Element = i32>>(
    r: crate::operator::Eq<X, Y>,
    i: int,
)
    ensures
        r.defined_at(i) == (r.left().defined_at(i) && r.right().defined_at(i)),
        r.spec_at(i) == (r.left().spec_at(i) == r.right().spec_at(i)),
{
    lemma_compare_i32(r.left().spec_at(i), r.right().spec_at(i));
}

/// Comparing two expressions of `i32` elements with `!=` gives, at every index of the
/// result, whether the left element is `!=` the right one; it is defined wherever both
/// operands are.
pub proof fn lemma_ne_elements<X: Expression<Element = i32>, Y: Expression<Element = i32>>(
    r: Ne<X, Y>,
    i: int,
)
    ensures
        r.defined_at(i) == (r.left().defined_at(i) && r.right().defined_at(i)),
        r.spec_at(i) == (r.left().spec_at(i) != r.right().spec_at(i)),
{
    lemma_compare_i32(r.left().spec_at(i), r.right().spec_at(i));
}

/// Comparing two expressions of `i32` elements with `<` gives, at every index of the
/// result, whether the left element is `<` the right one; it is defined wherever both
/// operands are.
pub proof fn lemma_lt_elements<X: Expression<Element = i32>, Y: Expression<Element = i32>>(
    r: Lt<X, Y>,
    i: int,
)
    ensures
        r.defined_at(i) == (r.left().defined_at(i) && r.right().defined_at(i)),
        r.spec_at(i) == (r.left().spec_at(i) < r.right().spec_at(i)),
{
    lemma_compare_i32(r.left().spec_at(i), r.right().spec_at(i));
}

/// Comparing two expressions of `i32` elements with `<=` gives, at every index of the
/// result, whether the left element is `<=` the right one; it is defined wherever both
/// operands are.
pub proof fn lemma_le_elements<X: Expression<Element = i32>, Y: Expression<Element = i32>>(
    r: Le<X, Y>,
    i: int,
)
    ensures
        r.defined_at(i) == (r.left().defined_at(i) && r.right().defined_at(i)),
        r.spec_at(i) == (r.left().spec_at(i) <= r.right().spec_at(i)),
{
    lemma_compare_i32(r.left().spec_at(i), r.right().spec_at(i));
}

/// Comparing two expressions of `i32` elements with `>` gives, at every index of the
/// result, whether the left element is `>` the right one; it is defined wherever both
/// operands are.
pub proof fn lemma_gt_elements<X: Expression<Element = i32>, Y: Expression<Element = i32>>(
    r: Gt<X, Y>,
    i: int,
)
    ensures
        r.defined_at(i) == (r.left().defined_at(i) && r.right().defined_at(i)),
        r.spec_at(i) == (r.left().spec_at(i) > r.right().spec_at(i)),
{
    lemma_compare_i32(r.left().spec_at(i), r.right().spec_at(i));
}

/// Comparing two expressions of `i32` elements with `>=` gives, at every index of the
/// result, whether the left element is `>=` the right one; it is defined wherever both
/// operands are.
pub proof fn lemma_ge_elements<X: Expression<Element = i32>, Y: Expression<Element = i32>>(
    r: Ge<X, Y>,
    i: int,
)
    ensures
        r.defined_at(i) == (r.left().defined_at(i) && r.right().defined_at(i)),
        r.spec_at(i) == (r.left().spec_at(i) >= r.right().spec_at(i)),
{
    lemma_compare_i32(r.left().spec_at(i), r.right().spec_at(i));
}

} // verus!
