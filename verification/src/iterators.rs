//! Element-wise operators, and the expressions that apply them to one or two operands.
use vstd::prelude::*;
use vstd::std_specs::ops::AddSpec;
use vstd::std_specs::ops::SubSpec;
use vstd::std_specs::ops::MulSpec;
use vstd::std_specs::ops::DivSpec;
use vstd::std_specs::ops::BitOrSpec;
use vstd::std_specs::ops::BitAndSpec;
use vstd::std_specs::ops::BitXorSpec;
use vstd::std_specs::ops::NegSpec;
use vstd::std_specs::ops::NotSpec;
use crate::{Expression, Reversible, Length};

verus! {

/// `+`, element by element.
#[derive(Copy, Clone)]
pub struct Plus;

/// `-`: subtraction of two operands, or negation of one.
#[derive(Copy, Clone)]
pub struct Minus;

/// `*`, element by element.
#[derive(Copy, Clone)]
pub struct Times;

/// `/`, element by element.
#[derive(Copy, Clone)]
pub struct Divide;

/// `|`, element by element.
#[derive(Copy, Clone)]
pub struct Pipe;

/// `&`, element by element.
#[derive(Copy, Clone)]
pub struct Ampersand;

/// `^`, element by element.
#[derive(Copy, Clone)]
pub struct Caret;

/// `!`, element by element.
#[derive(Copy, Clone)]
pub struct Bang;

/// `==`, element by element.
#[derive(Copy, Clone)]
pub struct EqEq;

/// `!=`, element by element.
#[derive(Copy, Clone)]
pub struct BangEq;

/// `<`, element by element.
#[derive(Copy, Clone)]
pub struct LessThan;

/// `<=`, element by element.
#[derive(Copy, Clone)]
pub struct LessThanEq;

/// `>`, element by element.
#[derive(Copy, Clone)]
pub struct GreaterThan;

/// `>=`, element by element.
#[derive(Copy, Clone)]
pub struct GreaterThanEq;

/// Pairs up two elements.
#[derive(Copy, Clone)]
pub struct Tuple;

/// An operation on one element.
///
/// `admits` says on which operands the operation is defined (no overflow, no
/// division by zero) and `result` what it gives there.
pub trait UnOp<A> {
    type Output;

    spec fn admits(&self, a: A) -> bool;

    spec fn result(&self, a: A) -> Self::Output;

    fn operate(&self, a: A) -> (r: Self::Output)
        requires
            self.admits(a),
        ensures
            r == self.result(a),
    ;
}

/// An operation on two elements.
///
/// `admits` says on which operands the operation is defined (no overflow, no
/// division by zero) and `result` what it gives there.
pub trait BinOp<A, B> {
    type Output;

    spec fn admits(&self, a: A, b: B) -> bool;

    spec fn result(&self, a: A, b: B) -> Self::Output;

    fn operate(&self, a: A, b: B) -> (r: Self::Output)
        requires
            self.admits(a, b),
        ensures
            r == self.result(a, b),
    ;
}

impl<A: core::ops::Neg> UnOp<A> for Minus {
    type Output = A::Output;

    open spec fn admits(&self, a: A) -> bool {
        A::obeys_neg_spec() && a.neg_req()
    }

    open spec fn result(&self, a: A) -> A::Output {
        a.neg_spec()
    }

    fn operate(&self, a: A) -> (r: A::Output) {
        a.neg()
    }
}

impl<A: core::ops::Not> UnOp<A> for Bang {
    type Output = A::Output;

    open spec fn admits(&self, a: A) -> bool {
        A::obeys_not_spec() && a.not_req()
    }

    open spec fn result(&self, a: A) -> A::Output {
        a.not_spec()
    }

    fn operate(&self, a: A) -> (r: A::Output) {
        a.not()
    }
}

impl<A: core::ops::Add<B>, B> BinOp<A, B> for Plus {
    type Output = A::Output;

    open spec fn admits(&self, a: A, b: B) -> bool {
        A::obeys_add_spec() && a.add_req(b)
    }

    open spec fn result(&self, a: A, b: B) -> A::Output {
        a.add_spec(b)
    }

    fn operate(&self, a: A, b: B) -> (r: A::Output) {
        a + b
    }
}

impl<A: core::ops::Sub<B>, B> BinOp<A, B> for Minus {
    type Output = A::Output;

    open spec fn admits(&self, a: A, b: B) -> bool {
        A::obeys_sub_spec() && a.sub_req(b)
    }

    open spec fn result(&self, a: A, b: B) -> A::Output {
        a.sub_spec(b)
    }

    fn operate(&self, a: A, b: B) -> (r: A::Output) {
        a - b
    }
}

impl<A: core::ops::Mul<B>, B> BinOp<A, B> for Times {
    type Output = A::Output;

    open spec fn admits(&self, a: A, b: B) -> bool {
        A::obeys_mul_spec() && a.mul_req(b)
    }

    open spec fn result(&self, a: A, b: B) -> A::Output {
        a.mul_spec(b)
    }

    fn operate(&self, a: A, b: B) -> (r: A::Output) {
        a * b
    }
}

impl<A: core::ops::Div<B>, B> BinOp<A, B> for Divide {
    type Output = A::Output;

    open spec fn admits(&self, a: A, b: B) -> bool {
        A::obeys_div_spec() && a.div_req(b)
    }

    open spec fn result(&self, a: A, b: B) -> A::Output {
        a.div_spec(b)
    }

    fn operate(&self, a: A, b: B) -> (r: A::Output) {
        a / b
    }
}

impl<A: core::ops::BitOr<B>, B> BinOp<A, B> for Pipe {
    type Output = A::Output;

    open spec fn admits(&self, a: A, b: B) -> bool {
        A::obeys_bitor_spec() && a.bitor_req(b)
    }

    open spec fn result(&self, a: A, b: B) -> A::Output {
        a.bitor_spec(b)
    }

    fn operate(&self, a: A, b: B) -> (r: A::Output) {
        a | b
    }
}

impl<A: core::ops::BitAnd<B>, B> BinOp<A, B> for Ampersand {
    type Output = A::Output;

    open spec fn admits(&self, a: A, b: B) -> bool {
        A::obeys_bitand_spec() && a.bitand_req(b)
    }

    open spec fn result(&self, a: A, b: B) -> A::Output {
        a.bitand_spec(b)
    }

    fn operate(&self, a: A, b: B) -> (r: A::Output) {
        a & b
    }
}

impl<A: core::ops::BitXor<B>, B> BinOp<A, B> for Caret {
    type Output = A::Output;

    open spec fn admits(&self, a: A, b: B) -> bool {
        A::obeys_bitxor_spec() && a.bitxor_req(b)
    }

    open spec fn result(&self, a: A, b: B) -> A::Output {
        a.bitxor_spec(b)
    }

    fn operate(&self, a: A, b: B) -> (r: A::Output) {
        a ^ b
    }
}

impl<A, B> BinOp<A, B> for Tuple {
    type Output = (A, B);

    open spec fn admits(&self, a: A, b: B) -> bool {
        true
    }

    open spec fn result(&self, a: A, b: B) -> (A, B) {
        (a, b)
    }

    fn operate(&self, a: A, b: B) -> (r: (A, B)) {
        (a, b)
    }
}

/// On `i8` elements the arithmetic and bitwise operators are those of the integers:
/// `+`, `-` and `*` are defined exactly where the mathematical result fits in `i8`
/// and give it there, `/` rounds toward zero and is defined for a non-zero divisor
/// (and no overflow), and the bitwise operators are defined everywhere.
pub proof fn lemma_arithmetic_i8(a: i8, b: i8)
    ensures
        BinOp::<i8, i8>::admits(&Plus, a, b) <==> i8::MIN <= a + b <= i8::MAX,
        BinOp::<i8, i8>::admits(&Plus, a, b) ==> BinOp::<i8, i8>::result(&Plus, a, b) == a + b,
        BinOp::<i8, i8>::admits(&Minus, a, b) <==> i8::MIN <= a - b <= i8::MAX,
        BinOp::<i8, i8>::admits(&Minus, a, b) ==> BinOp::<i8, i8>::result(&Minus, a, b) == a - b,
        BinOp::<i8, i8>::admits(&Times, a, b) <==> i8::MIN <= a * b <= i8::MAX,
        BinOp::<i8, i8>::admits(&Times, a, b) ==> BinOp::<i8, i8>::result(&Times, a, b) == a * b,
        BinOp::<i8, i8>::admits(&Divide, a, b) <==> (b != 0 && !(a == i8::MIN && b == -1)),
        a >= 0 && b > 0 ==> BinOp::<i8, i8>::result(&Divide, a, b) == a / b,
        BinOp::<i8, i8>::admits(&Pipe, a, b) && BinOp::<i8, i8>::result(&Pipe, a, b) == a | b,
        BinOp::<i8, i8>::admits(&Ampersand, a, b) && BinOp::<i8, i8>::result(&Ampersand, a, b) == a & b,
        BinOp::<i8, i8>::admits(&Caret, a, b) && BinOp::<i8, i8>::result(&Caret, a, b) == a ^ b,
        UnOp::<i8>::admits(&Bang, a) && UnOp::<i8>::result(&Bang, a) == !a,
        UnOp::<i8>::admits(&Minus, a) <==> a != i8::MIN,
        a != i8::MIN ==> UnOp::<i8>::result(&Minus, a) == -a,
        BinOp::<i8, i8>::admits(&Tuple, a, b) && BinOp::<i8, i8>::result(&Tuple, a, b) == (a, b),
{
}

/// On `i16` elements the arithmetic and bitwise operators are those of the integers:
/// `+`, `-` and `*` are defined exactly where the mathematical result fits in `i16`
/// and give it there, `/` rounds toward zero and is defined for a non-zero divisor
/// (and no overflow), and the bitwise operators are defined everywhere.
pub proof fn lemma_arithmetic_i16(a: i16, b: i16)
    ensures
        BinOp::<i16, i16>::admits(&Plus, a, b) <==> i16::MIN <= a + b <= i16::MAX,
        BinOp::<i16, i16>::admits(&Plus, a, b) ==> BinOp::<i16, i16>::result(&Plus, a, b) == a + b,
        BinOp::<i16, i16>::admits(&Minus, a, b) <==> i16::MIN <= a - b <= i16::MAX,
        BinOp::<i16, i16>::admits(&Minus, a, b) ==> BinOp::<i16, i16>::result(&Minus, a, b) == a - b,
        BinOp::<i16, i16>::admits(&Times, a, b) <==> i16::MIN <= a * b <= i16::MAX,
        BinOp::<i16, i16>::admits(&Times, a, b) ==> BinOp::<i16, i16>::result(&Times, a, b) == a * b,
        BinOp::<i16, i16>::admits(&Divide, a, b) <==> (b != 0 && !(a == i16::MIN && b == -1)),
        a >= 0 && b > 0 ==> BinOp::<i16, i16>::result(&Divide, a, b) == a / b,
        BinOp::<i16, i16>::admits(&Pipe, a, b) && BinOp::<i16, i16>::result(&Pipe, a, b) == a | b,
        BinOp::<i16, i16>::admits(&Ampersand, a, b) && BinOp::<i16, i16>::result(&Ampersand, a, b) == a & b,
        BinOp::<i16, i16>::admits(&Caret, a, b) && BinOp::<i16, i16>::result(&Caret, a, b) == a ^ b,
        UnOp::<i16>::admits(&Bang, a) && UnOp::<i16>::result(&Bang, a) == !a,
        UnOp::<i16>::admits(&Minus, a) <==> a != i16::MIN,
        a != i16::MIN ==> UnOp::<i16>::result(&Minus, a) == -a,
        BinOp::<i16, i16>::admits(&Tuple, a, b) && BinOp::<i16, i16>::result(&Tuple, a, b) == (a, b),
{
}

/// On `i32` elements the arithmetic and bitwise operators are those of the integers:
/// `+`, `-` and `*` are defined exactly where the mathematical result fits in `i32`
/// and give it there, `/` rounds toward zero and is defined for a non-zero divisor
/// (and no overflow), and the bitwise operators are defined everywhere.
pub proof fn lemma_arithmetic_i32(a: i32, b: i32)
    ensures
        BinOp::<i32, i32>::admits(&Plus, a, b) <==> i32::MIN <= a + b <= i32::MAX,
        BinOp::<i32, i32>::admits(&Plus, a, b) ==> BinOp::<i32, i32>::result(&Plus, a, b) == a + b,
        BinOp::<i32, i32>::admits(&Minus, a, b) <==> i32::MIN <= a - b <= i32::MAX,
        BinOp::<i32, i32>::admits(&Minus, a, b) ==> BinOp::<i32, i32>::result(&Minus, a, b) == a - b,
        BinOp::<i32, i32>::admits(&Times, a, b) <==> i32::MIN <= a * b <= i32::MAX,
        BinOp::<i32, i32>::admits(&Times, a, b) ==> BinOp::<i32, i32>::result(&Times, a, b) == a * b,
        BinOp::<i32, i32>::admits(&Divide, a, b) <==> (b != 0 && !(a == i32::MIN && b == -1)),
        a >= 0 && b > 0 ==> BinOp::<i32, i32>::result(&Divide, a, b) == a / b,
        BinOp::<i32, i32>::admits(&Pipe, a, b) && BinOp::<i32, i32>::result(&Pipe, a, b) == a | b,
        BinOp::<i32, i32>::admits(&Ampersand, a, b) && BinOp::<i32, i32>::result(&Ampersand, a, b) == a & b,
        BinOp::<i32, i32>::admits(&Caret, a, b) && BinOp::<i32, i32>::result(&Caret, a, b) == a ^ b,
        UnOp::<i32>::admits(&Bang, a) && UnOp::<i32>::result(&Bang, a) == !a,
        UnOp::<i32>::admits(&Minus, a) <==> a != i32::MIN,
        a != i32::MIN ==> UnOp::<i32>::result(&Minus, a) == -a,
        BinOp::<i32, i32>::admits(&Tuple, a, b) && BinOp::<i32, i32>::result(&Tuple, a, b) == (a, b),
{
}

/// On `i64` elements the arithmetic and bitwise operators are those of the integers:
/// `+`, `-` and `*` are defined exactly where the mathematical result fits in `i64`
/// and give it there, `/` rounds toward zero and is defined for a non-zero divisor
/// (and no overflow), and the bitwise operators are defined everywhere.
pub proof fn lemma_arithmetic_i64(a: i64, b: i64)
    ensures
        BinOp::<i64, i64>::admits(&Plus, a, b) <==> i64::MIN <= a + b <= i64::MAX,
        BinOp::<i64, i64>::admits(&Plus, a, b) ==> BinOp::<i64, i64>::result(&Plus, a, b) == a + b,
        BinOp::<i64, i64>::admits(&Minus, a, b) <==> i64::MIN <= a - b <= i64::MAX,
        BinOp::<i64, i64>::admits(&Minus, a, b) ==> BinOp::<i64, i64>::result(&Minus, a, b) == a - b,
        BinOp::<i64, i64>::admits(&Times, a, b) <==> i64::MIN <= a * b <= i64::MAX,
        BinOp::<i64, i64>::admits(&Times, a, b) ==> BinOp::<i64, i64>::result(&Times, a, b) == a * b,
        BinOp::<i64, i64>::admits(&Divide, a, b) <==> (b != 0 && !(a == i64::MIN && b == -1)),
        a >= 0 && b > 0 ==> BinOp::<i64, i64>::result(&Divide, a, b) == a / b,
        BinOp::<i64, i64>::admits(&Pipe, a, b) && BinOp::<i64, i64>::result(&Pipe, a, b) == a | b,
        BinOp::<i64, i64>::admits(&Ampersand, a, b) && BinOp::<i64, i64>::result(&Ampersand, a, b) == a & b,
        BinOp::<i64, i64>::admits(&Caret, a, b) && BinOp::<i64, i64>::result(&Caret, a, b) == a ^ b,
        UnOp::<i64>::admits(&Bang, a) && UnOp::<i64>::result(&Bang, a) == !a,
        UnOp::<i64>::admits(&Minus, a) <==> a != i64::MIN,
        a != i64::MIN ==> UnOp::<i64>::result(&Minus, a) == -a,
        BinOp::<i64, i64>::admits(&Tuple, a, b) && BinOp::<i64, i64>::result(&Tuple, a, b) == (a, b),
{
}

/// On `i128` elements the arithmetic and bitwise operators are those of the integers:
/// `+`, `-` and `*` are defined exactly where the mathematical result fits in `i128`
/// and give it there, `/` rounds toward zero and is defined for a non-zero divisor
/// (and no overflow), and the bitwise operators are defined everywhere.
pub proof fn lemma_arithmetic_i128(a: i128, b: i128)
    ensures
        BinOp::<i128, i128>::admits(&Plus, a, b) <==> i128::MIN <= a + b <= i128::MAX,
        BinOp::<i128, i128>::admits(&Plus, a, b) ==> BinOp::<i128, i128>::result(&Plus, a, b) == a + b,
        BinOp::<i128, i128>::admits(&Minus, a, b) <==> i128::MIN <= a - b <= i128::MAX,
        BinOp::<i128, i128>::admits(&Minus, a, b) ==> BinOp::<i128, i128>::result(&Minus, a, b) == a - b,
        BinOp::<i128, i128>::admits(&Times, a, b) <==> i128::MIN <= a * b <= i128::MAX,
        BinOp::<i128, i128>::admits(&Times, a, b) ==> BinOp::<i128, i128>::result(&Times, a, b) == a * b,
        BinOp::<i128, i128>::admits(&Divide, a, b) <==> (b != 0 && !(a == i128::MIN && b == -1)),
        a >= 0 && b > 0 ==> BinOp::<i128, i128>::result(&Divide, a, b) == a / b,
        BinOp::<i128, i128>::admits(&Pipe, a, b) && BinOp::<i128, i128>::result(&Pipe, a, b) == a | b,
        BinOp::<i128, i128>::admits(&Ampersand, a, b) && BinOp::<i128, i128>::result(&Ampersand, a, b) == a & b,
        BinOp::<i128, i128>::admits(&Caret, a, b) && BinOp::<i128, i128>::result(&Caret, a, b) == a ^ b,
        UnOp::<i128>::admits(&Bang, a) && UnOp::<i128>::result(&Bang, a) == !a,
        UnOp::<i128>::admits(&Minus, a) <==> a != i128::MIN,
        a != i128::MIN ==> UnOp::<i128>::result(&Minus, a) == -a,
        BinOp::<i128, i128>::admits(&Tuple, a, b) && BinOp::<i128, i128>::result(&Tuple, a, b) == (a, b),
{
}

/// On `isize` elements the arithmetic and bitwise operators are those of the integers:
/// `+`, `-` and `*` are defined exactly where the mathematical result fits in `isize`
/// and give it there, `/` rounds toward zero and is defined for a non-zero divisor
/// (and no overflow), and the bitwise operators are defined everywhere.
pub proof fn lemma_arithmetic_isize(a: isize, b: isize)
    ensures
        BinOp::<isize, isize>::admits(&Plus, a, b) <==> isize::MIN <= a + b <= isize::MAX,
        BinOp::<isize, isize>::admits(&Plus, a, b) ==> BinOp::<isize, isize>::result(&Plus, a, b) == a + b,
        BinOp::<isize, isize>::admits(&Minus, a, b) <==> isize::MIN <= a - b <= isize::MAX,
        BinOp::<isize, isize>::admits(&Minus, a, b) ==> BinOp::<isize, isize>::result(&Minus, a, b) == a - b,
        BinOp::<isize, isize>::admits(&Times, a, b) <==> isize::MIN <= a * b <= isize::MAX,
        BinOp::<isize, isize>::admits(&Times, a, b) ==> BinOp::<isize, isize>::result(&Times, a, b) == a * b,
        BinOp::<isize, isize>::admits(&Divide, a, b) <==> (b != 0 && !(a == isize::MIN && b == -1)),
        a >= 0 && b > 0 ==> BinOp::<isize, isize>::result(&Divide, a, b) == a / b,
        BinOp::<isize, isize>::admits(&Pipe, a, b) && BinOp::<isize, isize>::result(&Pipe, a, b) == a | b,
        BinOp::<isize, isize>::admits(&Ampersand, a, b) && BinOp::<isize, isize>::result(&Ampersand, a, b) == a & b,
        BinOp::<isize, isize>::admits(&Caret, a, b) && BinOp::<isize, isize>::result(&Caret, a, b) == a ^ b,
        UnOp::<isize>::admits(&Bang, a) && UnOp::<isize>::result(&Bang, a) == !a,
        UnOp::<isize>::admits(&Minus, a) <==> a != isize::MIN,
        a != isize::MIN ==> UnOp::<isize>::result(&Minus, a) == -a,
        BinOp::<isize, isize>::admits(&Tuple, a, b) && BinOp::<isize, isize>::result(&Tuple, a, b) == (a, b),
{
}

/// On `u8` elements the arithmetic and bitwise operators are those of the integers:
/// `+`, `-` and `*` are defined exactly where the mathematical result fits in `u8`
/// and give it there, `/` rounds toward zero and is defined for a non-zero divisor
/// (and no overflow), and the bitwise operators are defined everywhere.
pub proof fn lemma_arithmetic_u8(a: u8, b: u8)
    ensures
        BinOp::<u8, u8>::admits(&Plus, a, b) <==> u8::MIN <= a + b <= u8::MAX,
        BinOp::<u8, u8>::admits(&Plus, a, b) ==> BinOp::<u8, u8>::result(&Plus, a, b) == a + b,
        BinOp::<u8, u8>::admits(&Minus, a, b) <==> u8::MIN <= a - b <= u8::MAX,
        BinOp::<u8, u8>::admits(&Minus, a, b) ==> BinOp::<u8, u8>::result(&Minus, a, b) == a - b,
        BinOp::<u8, u8>::admits(&Times, a, b) <==> u8::MIN <= a * b <= u8::MAX,
        BinOp::<u8, u8>::admits(&Times, a, b) ==> BinOp::<u8, u8>::result(&Times, a, b) == a * b,
        BinOp::<u8, u8>::admits(&Divide, a, b) <==> b != 0,
        b != 0 ==> BinOp::<u8, u8>::result(&Divide, a, b) == a / b,
        BinOp::<u8, u8>::admits(&Pipe, a, b) && BinOp::<u8, u8>::result(&Pipe, a, b) == a | b,
        BinOp::<u8, u8>::admits(&Ampersand, a, b) && BinOp::<u8, u8>::result(&Ampersand, a, b) == a & b,
        BinOp::<u8, u8>::admits(&Caret, a, b) && BinOp::<u8, u8>::result(&Caret, a, b) == a ^ b,
        UnOp::<u8>::admits(&Bang, a) && UnOp::<u8>::result(&Bang, a) == !a,
        BinOp::<u8, u8>::admits(&Tuple, a, b) && BinOp::<u8, u8>::result(&Tuple, a, b) == (a, b),
{
}

/// On `u16` elements the arithmetic and bitwise operators are those of the integers:
/// `+`, `-` and `*` are defined exactly where the mathematical result fits in `u16`
/// and give it there, `/` rounds toward zero and is defined for a non-zero divisor
/// (and no overflow), and the bitwise operators are defined everywhere.
pub proof fn lemma_arithmetic_u16(a: u16, b: u16)
    ensures
        BinOp::<u16, u16>::admits(&Plus, a, b) <==> u16::MIN <= a + b <= u16::MAX,
        BinOp::<u16, u16>::admits(&Plus, a, b) ==> BinOp::<u16, u16>::result(&Plus, a, b) == a + b,
        BinOp::<u16, u16>::admits(&Minus, a, b) <==> u16::MIN <= a - b <= u16::MAX,
        BinOp::<u16, u16>::admits(&Minus, a, b) ==> BinOp::<u16, u16>::result(&Minus, a, b) == a - b,
        BinOp::<u16, u16>::admits(&Times, a, b) <==> u16::MIN <= a * b <= u16::MAX,
        BinOp::<u16, u16>::admits(&Times, a, b) ==> BinOp::<u16, u16>::result(&Times, a, b) == a * b,
        BinOp::<u16, u16>::admits(&Divide, a, b) <==> b != 0,
        b != 0 ==> BinOp::<u16, u16>::result(&Divide, a, b) == a / b,
        BinOp::<u16, u16>::admits(&Pipe, a, b) && BinOp::<u16, u16>::result(&Pipe, a, b) == a | b,
        BinOp::<u16, u16>::admits(&Ampersand, a, b) && BinOp::<u16, u16>::result(&Ampersand, a, b) == a & b,
        BinOp::<u16, u16>::admits(&Caret, a, b) && BinOp::<u16, u16>::result(&Caret, a, b) == a ^ b,
        UnOp::<u16>::admits(&Bang, a) && UnOp::<u16>::result(&Bang, a) == !a,
        BinOp::<u16, u16>::admits(&Tuple, a, b) && BinOp::<u16, u16>::result(&Tuple, a, b) == (a, b),
{
}

/// On `u32` elements the arithmetic and bitwise operators are those of the integers:
/// `+`, `-` and `*` are defined exactly where the mathematical result fits in `u32`
/// and give it there, `/` rounds toward zero and is defined for a non-zero divisor
/// (and no overflow), and the bitwise operators are defined everywhere.
pub proof fn lemma_arithmetic_u32(a: u32, b: u32)
    ensures
        BinOp::<u32, u32>::admits(&Plus, a, b) <==> u32::MIN <= a + b <= u32::MAX,
        BinOp::<u32, u32>::admits(&Plus, a, b) ==> BinOp::<u32, u32>::result(&Plus, a, b) == a + b,
        BinOp::<u32, u32>::admits(&Minus, a, b) <==> u32::MIN <= a - b <= u32::MAX,
        BinOp::<u32, u32>::admits(&Minus, a, b) ==> BinOp::<u32, u32>::result(&Minus, a, b) == a - b,
        BinOp::<u32, u32>::admits(&Times, a, b) <==> u32::MIN <= a * b <= u32::MAX,
        BinOp::<u32, u32>::admits(&Times, a, b) ==> BinOp::<u32, u32>::result(&Times, a, b) == a * b,
        BinOp::<u32, u32>::admits(&Divide, a, b) <==> b != 0,
        b != 0 ==> BinOp::<u32, u32>::result(&Divide, a, b) == a / b,
        BinOp::<u32, u32>::admits(&Pipe, a, b) && BinOp::<u32, u32>::result(&Pipe, a, b) == a | b,
        BinOp::<u32, u32>::admits(&Ampersand, a, b) && BinOp::<u32, u32>::result(&Ampersand, a, b) == a & b,
        BinOp::<u32, u32>::admits(&Caret, a, b) && BinOp::<u32, u32>::result(&Caret, a, b) == a ^ b,
        UnOp::<u32>::admits(&Bang, a) && UnOp::<u32>::result(&Bang, a) == !a,
        BinOp::<u32, u32>::admits(&Tuple, a, b) && BinOp::<u32, u32>::result(&Tuple, a, b) == (a, b),
{
}

/// On `u64` elements the arithmetic and bitwise operators are those of the integers:
/// `+`, `-` and `*` are defined exactly where the mathematical result fits in `u64`
/// and give it there, `/` rounds toward zero and is defined for a non-zero divisor
/// (and no overflow), and the bitwise operators are defined everywhere.
pub proof fn lemma_arithmetic_u64(a: u64, b: u64)
    ensures
        BinOp::<u64, u64>::admits(&Plus, a, b) <==> u64::MIN <= a + b <= u64::MAX,
        BinOp::<u64, u64>::admits(&Plus, a, b) ==> BinOp::<u64, u64>::result(&Plus, a, b) == a + b,
        BinOp::<u64, u64>::admits(&Minus, a, b) <==> u64::MIN <= a - b <= u64::MAX,
        BinOp::<u64, u64>::admits(&Minus, a, b) ==> BinOp::<u64, u64>::result(&Minus, a, b) == a - b,
        BinOp::<u64, u64>::admits(&Times, a, b) <==> u64::MIN <= a * b <= u64::MAX,
        BinOp::<u64, u64>::admits(&Times, a, b) ==> BinOp::<u64, u64>::result(&Times, a, b) == a * b,
        BinOp::<u64, u64>::admits(&Divide, a, b) <==> b != 0,
        b != 0 ==> BinOp::<u64, u64>::result(&Divide, a, b) == a / b,
        BinOp::<u64, u64>::admits(&Pipe, a, b) && BinOp::<u64, u64>::result(&Pipe, a, b) == a | b,
        BinOp::<u64, u64>::admits(&Ampersand, a, b) && BinOp::<u64, u64>::result(&Ampersand, a, b) == a & b,
        BinOp::<u64, u64>::admits(&Caret, a, b) && BinOp::<u64, u64>::result(&Caret, a, b) == a ^ b,
        UnOp::<u64>::admits(&Bang, a) && UnOp::<u64>::result(&Bang, a) == !a,
        BinOp::<u64, u64>::admits(&Tuple, a, b) && BinOp::<u64, u64>::result(&Tuple, a, b) == (a, b),
{
}

/// On `u128` elements the arithmetic and bitwise operators are those of the integers:
/// `+`, `-` and `*` are defined exactly where the mathematical result fits in `u128`
/// and give it there, `/` rounds toward zero and is defined for a non-zero divisor
/// (and no overflow), and the bitwise operators are defined everywhere.
pub proof fn lemma_arithmetic_u128(a: u128, b: u128)
    ensures
        BinOp::<u128, u128>::admits(&Plus, a, b) <==> u128::MIN <= a + b <= u128::MAX,
        BinOp::<u128, u128>::admits(&Plus, a, b) ==> BinOp::<u128, u128>::result(&Plus, a, b) == a + b,
        BinOp::<u128, u128>::admits(&Minus, a, b) <==> u128::MIN <= a - b <= u128::MAX,
        BinOp::<u128, u128>::admits(&Minus, a, b) ==> BinOp::<u128, u128>::result(&Minus, a, b) == a - b,
        BinOp::<u128, u128>::admits(&Times, a, b) <==> u128::MIN <= a * b <= u128::MAX,
        BinOp::<u128, u128>::admits(&Times, a, b) ==> BinOp::<u128, u128>::result(&Times, a, b) == a * b,
        BinOp::<u128, u128>::admits(&Divide, a, b) <==> b != 0,
        b != 0 ==> BinOp::<u128, u128>::result(&Divide, a, b) == a / b,
        BinOp::<u128, u128>::admits(&Pipe, a, b) && BinOp::<u128, u128>::result(&Pipe, a, b) == a | b,
        BinOp::<u128, u128>::admits(&Ampersand, a, b) && BinOp::<u128, u128>::result(&Ampersand, a, b) == a & b,
        BinOp::<u128, u128>::admits(&Caret, a, b) && BinOp::<u128, u128>::result(&Caret, a, b) == a ^ b,
        UnOp::<u128>::admits(&Bang, a) && UnOp::<u128>::result(&Bang, a) == !a,
        BinOp::<u128, u128>::admits(&Tuple, a, b) && BinOp::<u128, u128>::result(&Tuple, a, b) == (a, b),
{
}

/// On `usize` elements the arithmetic and bitwise operators are those of the integers:
/// `+`, `-` and `*` are defined exactly where the mathematical result fits in `usize`
/// and give it there, `/` rounds toward zero and is defined for a non-zero divisor
/// (and no overflow), and the bitwise operators are defined everywhere.
pub proof fn lemma_arithmetic_usize(a: usize, b: usize)
    ensures
        BinOp::<usize, usize>::admits(&Plus, a, b) <==> usize::MIN <= a + b <= usize::MAX,
        BinOp::<usize, usize>::admits(&Plus, a, b) ==> BinOp::<usize, usize>::result(&Plus, a, b) == a + b,
        BinOp::<usize, usize>::admits(&Minus, a, b) <==> usize::MIN <= a - b <= usize::MAX,
        BinOp::<usize, usize>::admits(&Minus, a, b) ==> BinOp::<usize, usize>::result(&Minus, a, b) == a - b,
        BinOp::<usize, usize>::admits(&Times, a, b) <==> usize::MIN <= a * b <= usize::MAX,
        BinOp::<usize, usize>::admits(&Times, a, b) ==> BinOp::<usize, usize>::result(&Times, a, b) == a * b,
        BinOp::<usize, usize>::admits(&Divide, a, b) <==> b != 0,
        b != 0 ==> BinOp::<usize, usize>::result(&Divide, a, b) == a / b,
        BinOp::<usize, usize>::admits(&Pipe, a, b) && BinOp::<usize, usize>::result(&Pipe, a, b) == a | b,
        BinOp::<usize, usize>::admits(&Ampersand, a, b) && BinOp::<usize, usize>::result(&Ampersand, a, b) == a & b,
        BinOp::<usize, usize>::admits(&Caret, a, b) && BinOp::<usize, usize>::result(&Caret, a, b) == a ^ b,
        UnOp::<usize>::admits(&Bang, a) && UnOp::<usize>::result(&Bang, a) == !a,
        BinOp::<usize, usize>::admits(&Tuple, a, b) && BinOp::<usize, usize>::result(&Tuple, a, b) == (a, b),
{
}

/// On `bool` elements `!` is negation, defined everywhere.
pub proof fn lemma_not_bool(a: bool)
    ensures
        UnOp::<bool>::admits(&Bang, a),
        UnOp::<bool>::result(&Bang, a) == !a,
        UnOp::<bool>::result(&Bang, true) == false,
        UnOp::<bool>::result(&Bang, false) == true,
{
}

/// An operator applied to every element of one operand.
#[derive(Copy, Clone)]
pub struct Unary<Op, X> {
    op: Op,
    x: X,
}

impl<Op, X> Unary<Op, X> {
    pub closed spec fn operator(self) -> Op {
        self.op
    }

    pub closed spec fn operand(self) -> X {
        self.x
    }

    pub closed spec fn spec_new(op: Op, x: X) -> Self {
        Unary { op: op, x: x }
    }

    pub broadcast proof fn lemma_spec_new(op: Op, x: X)
        ensures
            (#[trigger] Self::spec_new(op, x)).operator() == op && Self::spec_new(op, x).operand()
                == x,
    {
    }

    pub fn new(op: Op, x: X) -> (r: Self)
        ensures
            r == Self::spec_new(op, x),
            r.operator() == op,
            r.operand() == x,
    {
        Unary { op: op, x: x }
    }
}

impl<Op, X> Expression for Unary<Op, X> where Op: UnOp<X::Element> + Copy, X: Expression {
    type Element = Op::Output;

    open spec fn inv(&self) -> bool {
        self.operand().inv()
    }

    open spec fn spec_length(&self) -> Length {
        self.operand().spec_length()
    }

    open spec fn spec_at(&self, i: int) -> Op::Output {
        self.operator().result(self.operand().spec_at(i))
    }

    open spec fn defined_at(&self, i: int) -> bool {
        &&& self.operand().defined_at(i)
        &&& self.operator().admits(self.operand().spec_at(i))
    }

    proof fn lemma_unbounded_uniform(&self, i: int, j: int) {
        self.x.lemma_unbounded_uniform(i, j);
    }

    fn length(&self) -> (l: Length) {
        self.x.length()
    }

    fn value_at(&self, i: usize) -> (v: Op::Output) {
        let a = self.x.value_at(i);
        self.op.operate(a)
    }

    fn split(self, round_up: bool) -> (r: (Self, Self)) {
        let (x1, x2) = self.x.split(round_up);
        (Unary { op: self.op, x: x1 }, Unary { op: self.op, x: x2 })
    }

    fn split_at(self, n: usize) -> (r: (Self, Self)) {
        let (x1, x2) = self.x.split_at(n);
        (Unary { op: self.op, x: x1 }, Unary { op: self.op, x: x2 })
    }
}

impl<Op, X> Reversible for Unary<Op, X> where Op: UnOp<X::Element> + Copy, X: Reversible {
    type Rev = Unary<Op, X::Rev>;

    fn rev(self) -> (r: Unary<Op, X::Rev>) {
        Unary { op: self.op, x: self.x.rev() }
    }
}

/// An operator applied to the elements of two operands, index by index.
#[derive(Copy, Clone)]
pub struct Binary<Op, X, Y> {
    op: Op,
    x: X,
    y: Y,
}

impl<Op, X, Y> Binary<Op, X, Y> {
    pub closed spec fn operator(self) -> Op {
        self.op
    }

    pub closed spec fn left(self) -> X {
        self.x
    }

    pub closed spec fn right(self) -> Y {
        self.y
    }

    pub closed spec fn spec_new(op: Op, x: X, y: Y) -> Self {
        Binary { op: op, x: x, y: y }
    }

    pub broadcast proof fn lemma_spec_new(op: Op, x: X, y: Y)
        ensures
            (#[trigger] Self::spec_new(op, x, y)).operator() == op && Self::spec_new(
                op,
                x,
                y,
            ).left() == x && Self::spec_new(op, x, y).right() == y,
    {
    }

    pub fn new(op: Op, x: X, y: Y) -> (r: Self)
        ensures
            r == Self::spec_new(op, x, y),
            r.operator() == op,
            r.left() == x,
            r.right() == y,
    {
        Binary { op: op, x: x, y: y }
    }
}

impl<Op, X, Y> Expression for Binary<Op, X, Y> where
    Op: BinOp<X::Element, Y::Element> + Copy,
    X: Expression,
    Y: Expression,
 {
    type Element = Op::Output;

    open spec fn inv(&self) -> bool {
        &&& self.left().inv()
        &&& self.right().inv()
        &&& self.left().spec_length().spec_compatible(self.right().spec_length())
    }

    open spec fn spec_length(&self) -> Length {
        self.left().spec_length().spec_shorter(self.right().spec_length())
    }

    open spec fn spec_at(&self, i: int) -> Op::Output {
        self.operator().result(self.left().spec_at(i), self.right().spec_at(i))
    }

    open spec fn defined_at(&self, i: int) -> bool {
        &&& self.left().defined_at(i)
        &&& self.right().defined_at(i)
        &&& self.operator().admits(self.left().spec_at(i), self.right().spec_at(i))
    }

    proof fn lemma_unbounded_uniform(&self, i: int, j: int) {
        self.x.lemma_unbounded_uniform(i, j);
        self.y.lemma_unbounded_uniform(i, j);
    }

    fn length(&self) -> (l: Length) {
        self.x.length().shorter(self.y.length())
    }

    fn value_at(&self, i: usize) -> (v: Op::Output) {
        let a = self.x.value_at(i);
        let b = self.y.value_at(i);
        self.op.operate(a, b)
    }

    fn split(self, round_up: bool) -> (r: (Self, Self)) {
        let ghost k = self.spec_length().split_point(round_up);
        let ghost whole = self;
        let (x1, x2) = self.x.split(round_up);
        let (y1, y2) = self.y.split(round_up);
        let lo = Binary { op: self.op, x: x1, y: y1 };
        let hi = Binary { op: self.op, x: x2, y: y2 };
        proof {
            assert forall|i: int| hi.spec_length().has(i) implies hi.spec_at(i) == whole.spec_at(k
                + i) && hi.defined_at(i) == whole.defined_at(k + i) by {
                let kx = whole.x.spec_length().split_point(round_up);
                let ky = whole.y.spec_length().split_point(round_up);
                if whole.x.spec_length() is Infinite {
                    whole.x.lemma_unbounded_uniform(kx + i, k + i);
                }
                if whole.y.spec_length() is Infinite {
                    whole.y.lemma_unbounded_uniform(ky + i, k + i);
                }
            }
        }
        (lo, hi)
    }

    fn split_at(self, n: usize) -> (r: (Self, Self)) {
        let (x1, x2) = self.x.split_at(n);
        let (y1, y2) = self.y.split_at(n);
        (Binary { op: self.op, x: x1, y: y1 }, Binary { op: self.op, x: x2, y: y2 })
    }
}

impl<Op, X, Y> Reversible for Binary<Op, X, Y> where
    Op: BinOp<X::Element, Y::Element> + Copy,
    X: Reversible,
    Y: Reversible,
 {
    type Rev = Binary<Op, X::Rev, Y::Rev>;

    fn rev(self) -> (r: Binary<Op, X::Rev, Y::Rev>) {
        let ghost whole = self;
        let r = Binary { op: self.op, x: self.x.rev(), y: self.y.rev() };
        proof {
            let n = whole.spec_length();
            assert forall|i: int| r.spec_length().has(i) implies r.spec_at(i) == whole.spec_at(
                n.mirror(i),
            ) && r.defined_at(i) == whole.defined_at(n.mirror(i)) by {
                if whole.x.spec_length() is Infinite {
                    whole.x.lemma_unbounded_uniform(i, n.mirror(i));
                }
                if whole.y.spec_length() is Infinite {
                    whole.y.lemma_unbounded_uniform(i, n.mirror(i));
                }
            }
        }
        r
    }
}

} // verus!
