//! The arithmetic and bitwise operators on expressions, names for the comparison
//! expressions, and their constructors.
use vstd::prelude::*;
use vstd::std_specs::ops::AddSpecImpl;
use vstd::std_specs::ops::SubSpecImpl;
use vstd::std_specs::ops::MulSpecImpl;
use vstd::std_specs::ops::DivSpecImpl;
use vstd::std_specs::ops::BitOrSpecImpl;
use vstd::std_specs::ops::BitAndSpecImpl;
use vstd::std_specs::ops::BitXorSpecImpl;
use vstd::std_specs::ops::NegSpecImpl;
use vstd::std_specs::ops::NotSpecImpl;
use crate::{Expression, E, Constant, Rev, Zip, Mapped, Switch};
use crate::iterators::{
    Unary, Binary, Plus, Minus, Times, Divide, Pipe, Ampersand, Caret, Bang, EqEq, BangEq,
    LessThan, LessThanEq, GreaterThan, GreaterThanEq,
};

verus! {

/// `x == y`, element by element.
pub type Eq<X, Y> = Binary<EqEq, X, Y>;

/// `x != y`, element by element.
pub type Ne<X, Y> = Binary<BangEq, X, Y>;

/// `x < y`, element by element.
pub type Lt<X, Y> = Binary<LessThan, X, Y>;

/// `x <= y`, element by element.
pub type Le<X, Y> = Binary<LessThanEq, X, Y>;

/// `x > y`, element by element.
pub type Gt<X, Y> = Binary<GreaterThan, X, Y>;

/// `x >= y`, element by element.
pub type Ge<X, Y> = Binary<GreaterThanEq, X, Y>;

/// Compares `e1` and `e2` for equality, element by element.
pub fn make_eq<E1: Expression, E2: Expression>(e1: E1, e2: E2) -> (r: Eq<E1, E2>)
    ensures
        r.operator() == EqEq,
        r.left() == e1,
        r.right() == e2,
{
    Binary::new(EqEq, e1, e2)
}

/// Compares `e1` and `e2` for inequality, element by element.
pub fn make_ne<E1: Expression, E2: Expression>(e1: E1, e2: E2) -> (r: Ne<E1, E2>)
    ensures
        r.operator() == BangEq,
        r.left() == e1,
        r.right() == e2,
{
    Binary::new(BangEq, e1, e2)
}

/// Tests `e1 < e2`, element by element.
pub fn make_lt<E1: Expression, E2: Expression>(e1: E1, e2: E2) -> (r: Lt<E1, E2>)
    ensures
        r.operator() == LessThan,
        r.left() == e1,
        r.right() == e2,
{
    Binary::new(LessThan, e1, e2)
}

/// Tests `e1 <= e2`, element by element.
pub fn make_le<E1: Expression, E2: Expression>(e1: E1, e2: E2) -> (r: Le<E1, E2>)
    ensures
        r.operator() == LessThanEq,
        r.left() == e1,
        r.right() == e2,
{
    Binary::new(LessThanEq, e1, e2)
}

/// Tests `e1 > e2`, element by element.
pub fn make_gt<E1: Expression, E2: Expression>(e1: E1, e2: E2) -> (r: Gt<E1, E2>)
    ensures
        r.operator() == GreaterThan,
        r.left() == e1,
        r.right() == e2,
{
    Binary::new(GreaterThan, e1, e2)
}

/// Tests `e1 >= e2`, element by element.
pub fn make_ge<E1: Expression, E2: Expression>(e1: E1, e2: E2) -> (r: Ge<E1, E2>)
    ensures
        r.operator() == GreaterThanEq,
        r.left() == e1,
        r.right() == e2,
{
    Binary::new(GreaterThanEq, e1, e2)
}

/// Two expressions can be combined element by element: both are consistent and their
/// lengths are compatible.
pub open spec fn operands_fit<X: Expression, Y: Expression>(x: X, y: Y) -> bool {
    &&& x.inv()
    &&& y.inv()
    &&& x.spec_length().spec_compatible(y.spec_length())
}

// Operators on `E<X>`.

impl<X, Rhs> std::ops::Add<Rhs> for E<X> where E<X>: Expression, Rhs: Expression {
    type Output = Binary<Plus, E<X>, Rhs>;

    fn add(self, other: Rhs) -> (r: Binary<Plus, E<X>, Rhs>) {
        Binary::new(Plus, self, other)
    }
}

impl<X, Rhs> AddSpecImpl<Rhs> for E<X> where E<X>: Expression, Rhs: Expression {
    open spec fn obeys_add_spec() -> bool {
        true
    }

    open spec fn add_req(self, rhs: Rhs) -> bool {
        operands_fit(self, rhs)
    }

    open spec fn add_spec(self, rhs: Rhs) -> Binary<Plus, E<X>, Rhs> {
        Binary::spec_new(Plus, self, rhs)
    }
}

impl<X, Rhs> std::ops::Sub<Rhs> for E<X> where E<X>: Expression, Rhs: Expression {
    type Output = Binary<Minus, E<X>, Rhs>;

    fn sub(self, other: Rhs) -> (r: Binary<Minus, E<X>, Rhs>) {
        Binary::new(Minus, self, other)
    }
}

impl<X, Rhs> SubSpecImpl<Rhs> for E<X> where E<X>: Expression, Rhs: Expression {
    open spec fn obeys_sub_spec() -> bool {
        true
    }

    open spec fn sub_req(self, rhs: Rhs) -> bool {
        operands_fit(self, rhs)
    }

    open spec fn sub_spec(self, rhs: Rhs) -> Binary<Minus, E<X>, Rhs> {
        Binary::spec_new(Minus, self, rhs)
    }
}

impl<X, Rhs> std::ops::Mul<Rhs> for E<X> where E<X>: Expression, Rhs: Expression {
    type Output = Binary<Times, E<X>, Rhs>;

    fn mul(self, other: Rhs) -> (r: Binary<Times, E<X>, Rhs>) {
        Binary::new(Times, self, other)
    }
}

impl<X, Rhs> MulSpecImpl<Rhs> for E<X> where E<X>: Expression, Rhs: Expression {
    open spec fn obeys_mul_spec() -> bool {
        true
    }

    open spec fn mul_req(self, rhs: Rhs) -> bool {
        operands_fit(self, rhs)
    }

    open spec fn mul_spec(self, rhs: Rhs) -> Binary<Times, E<X>, Rhs> {
        Binary::spec_new(Times, self, rhs)
    }
}

impl<X, Rhs> std::ops::Div<Rhs> for E<X> where E<X>: Expression, Rhs: Expression {
    type Output = Binary<Divide, E<X>, Rhs>;

    fn div(self, other: Rhs) -> (r: Binary<Divide, E<X>, Rhs>) {
        Binary::new(Divide, self, other)
    }
}

impl<X, Rhs> DivSpecImpl<Rhs> for E<X> where E<X>: Expression, Rhs: Expression {
    open spec fn obeys_div_spec() -> bool {
        true
    }

    open spec fn div_req(self, rhs: Rhs) -> bool {
        operands_fit(self, rhs)
    }

    open spec fn div_spec(self, rhs: Rhs) -> Binary<Divide, E<X>, Rhs> {
        Binary::spec_new(Divide, self, rhs)
    }
}

impl<X, Rhs> std::ops::BitOr<Rhs> for E<X> where E<X>: Expression, Rhs: Expression {
    type Output = Binary<Pipe, E<X>, Rhs>;

    fn bitor(self, other: Rhs) -> (r: Binary<Pipe, E<X>, Rhs>) {
        Binary::new(Pipe, self, other)
    }
}

impl<X, Rhs> BitOrSpecImpl<Rhs> for E<X> where E<X>: Expression, Rhs: Expression {
    open spec fn obeys_bitor_spec() -> bool {
        true
    }

    open spec fn bitor_req(self, rhs: Rhs) -> bool {
        operands_fit(self, rhs)
    }

    open spec fn bitor_spec(self, rhs: Rhs) -> Binary<Pipe, E<X>, Rhs> {
        Binary::spec_new(Pipe, self, rhs)
    }
}

impl<X, Rhs> std::ops::BitAnd<Rhs> for E<X> where E<X>: Expression, Rhs: Expression {
    type Output = Binary<Ampersand, E<X>, Rhs>;

    fn bitand(self, other: Rhs) -> (r: Binary<Ampersand, E<X>, Rhs>) {
        Binary::new(Ampersand, self, other)
    }
}

impl<X, Rhs> BitAndSpecImpl<Rhs> for E<X> where E<X>: Expression, Rhs: Expression {
    open spec fn obeys_bitand_spec() -> bool {
        true
    }

    open spec fn bitand_req(self, rhs: Rhs) -> bool {
        operands_fit(self, rhs)
    }

    open spec fn bitand_spec(self, rhs: Rhs) -> Binary<Ampersand, E<X>, Rhs> {
        Binary::spec_new(Ampersand, self, rhs)
    }
}

impl<X, Rhs> std::ops::BitXor<Rhs> for E<X> where E<X>: Expression, Rhs: Expression {
    type Output = Binary<Caret, E<X>, Rhs>;

    fn bitxor(self, other: Rhs) -> (r: Binary<Caret, E<X>, Rhs>) {
        Binary::new(Caret, self, other)
    }
}

impl<X, Rhs> BitXorSpecImpl<Rhs> for E<X> where E<X>: Expression, Rhs: Expression {
    open spec fn obeys_bitxor_spec() -> bool {
        true
    }

    open spec fn bitxor_req(self, rhs: Rhs) -> bool {
        operands_fit(self, rhs)
    }

    open spec fn bitxor_spec(self, rhs: Rhs) -> Binary<Caret, E<X>, Rhs> {
        Binary::spec_new(Caret, self, rhs)
    }
}

impl<X> std::ops::Neg for E<X> where E<X>: Expression {
    type Output = Unary<Minus, E<X>>;

    fn neg(self) -> (r: Unary<Minus, E<X>>) {
        Unary::new(Minus, self)
    }
}

impl<X> NegSpecImpl for E<X> where E<X>: Expression {
    open spec fn obeys_neg_spec() -> bool {
        true
    }

    open spec fn neg_req(self) -> bool {
        true
    }

    open spec fn neg_spec(self) -> Unary<Minus, E<X>> {
        Unary::spec_new(Minus, self)
    }
}

impl<X> std::ops::Not for E<X> where E<X>: Expression {
    type Output = Unary<Bang, E<X>>;

    fn not(self) -> (r: Unary<Bang, E<X>>) {
        Unary::new(Bang, self)
    }
}

impl<X> NotSpecImpl for E<X> where E<X>: Expression {
    open spec fn obeys_not_spec() -> bool {
        true
    }

    open spec fn not_req(self) -> bool {
        true
    }

    open spec fn not_spec(self) -> Unary<Bang, E<X>> {
        Unary::spec_new(Bang, self)
    }
}

// Operators on `Constant<T>`.

impl<T, Rhs> std::ops::Add<Rhs> for Constant<T> where Constant<T>: Expression, Rhs: Expression {
    type Output = Binary<Plus, Constant<T>, Rhs>;

    fn add(self, other: Rhs) -> (r: Binary<Plus, Constant<T>, Rhs>) {
        Binary::new(Plus, self, other)
    }
}

impl<T, Rhs> AddSpecImpl<Rhs> for Constant<T> where Constant<T>: Expression, Rhs: Expression {
    open spec fn obeys_add_spec() -> bool {
        true
    }

    open spec fn add_req(self, rhs: Rhs) -> bool {
        operands_fit(self, rhs)
    }

    open spec fn add_spec(self, rhs: Rhs) -> Binary<Plus, Constant<T>, Rhs> {
        Binary::spec_new(Plus, self, rhs)
    }
}

impl<T, Rhs> std::ops::Sub<Rhs> for Constant<T> where Constant<T>: Expression, Rhs: Expression {
    type Output = Binary<Minus, Constant<T>, Rhs>;

    fn sub(self, other: Rhs) -> (r: Binary<Minus, Constant<T>, Rhs>) {
        Binary::new(Minus, self, other)
    }
}

impl<T, Rhs> SubSpecImpl<Rhs> for Constant<T> where Constant<T>: Expression, Rhs: Expression {
    open spec fn obeys_sub_spec() -> bool {
        true
    }

    open spec fn sub_req(self, rhs: Rhs) -> bool {
        operands_fit(self, rhs)
    }

    open spec fn sub_spec(self, rhs: Rhs) -> Binary<Minus, Constant<T>, Rhs> {
        Binary::spec_new(Minus, self, rhs)
    }
}

impl<T, Rhs> std::ops::Mul<Rhs> for Constant<T> where Constant<T>: Expression, Rhs: Expression {
    type Output = Binary<Times, Constant<T>, Rhs>;

    fn mul(self, other: Rhs) -> (r: Binary<Times, Constant<T>, Rhs>) {
        Binary::new(Times, self, other)
    }
}

impl<T, Rhs> MulSpecImpl<Rhs> for Constant<T> where Constant<T>: Expression, Rhs: Expression {
    open spec fn obeys_mul_spec() -> bool {
        true
    }

    open spec fn mul_req(self, rhs: Rhs) -> bool {
        operands_fit(self, rhs)
    }

    open spec fn mul_spec(self, rhs: Rhs) -> Binary<Times, Constant<T>, Rhs> {
        Binary::spec_new(Times, self, rhs)
    }
}

impl<T, Rhs> std::ops::Div<Rhs> for Constant<T> where Constant<T>: Expression, Rhs: Expression {
    type Output = Binary<Divide, Constant<T>, Rhs>;

    fn div(self, other: Rhs) -> (r: Binary<Divide, Constant<T>, Rhs>) {
        Binary::new(Divide, self, other)
    }
}

impl<T, Rhs> DivSpecImpl<Rhs> for Constant<T> where Constant<T>: Expression, Rhs: Expression {
    open spec fn obeys_div_spec() -> bool {
        true
    }

    open spec fn div_req(self, rhs: Rhs) -> bool {
        operands_fit(self, rhs)
    }

    open spec fn div_spec(self, rhs: Rhs) -> Binary<Divide, Constant<T>, Rhs> {
        Binary::spec_new(Divide, self, rhs)
    }
}

impl<T, Rhs> std::ops::BitOr<Rhs> for Constant<T> where Constant<T>: Expression, Rhs: Expression {
    type Output = Binary<Pipe, Constant<T>, Rhs>;

    fn bitor(self, other: Rhs) -> (r: Binary<Pipe, Constant<T>, Rhs>) {
        Binary::new(Pipe, self, other)
    }
}

impl<T, Rhs> BitOrSpecImpl<Rhs> for Constant<T> where Constant<T>: Expression, Rhs: Expression {
    open spec fn obeys_bitor_spec() -> bool {
        true
    }

    open spec fn bitor_req(self, rhs: Rhs) -> bool {
        operands_fit(self, rhs)
    }

    open spec fn bitor_spec(self, rhs: Rhs) -> Binary<Pipe, Constant<T>, Rhs> {
        Binary::spec_new(Pipe, self, rhs)
    }
}

impl<T, Rhs> std::ops::BitAnd<Rhs> for Constant<T> where Constant<T>: Expression, Rhs: Expression {
    type Output = Binary<Ampersand, Constant<T>, Rhs>;

    fn bitand(self, other: Rhs) -> (r: Binary<Ampersand, Constant<T>, Rhs>) {
        Binary::new(Ampersand, self, other)
    }
}

impl<T, Rhs> BitAndSpecImpl<Rhs> for Constant<T> where Constant<T>: Expression, Rhs: Expression {
    open spec fn obeys_bitand_spec() -> bool {
        true
    }

    open spec fn bitand_req(self, rhs: Rhs) -> bool {
        operands_fit(self, rhs)
    }

    open spec fn bitand_spec(self, rhs: Rhs) -> Binary<Ampersand, Constant<T>, Rhs> {
        Binary::spec_new(Ampersand, self, rhs)
    }
}

impl<T, Rhs> std::ops::BitXor<Rhs> for Constant<T> where Constant<T>: Expression, Rhs: Expression {
    type Output = Binary<Caret, Constant<T>, Rhs>;

    fn bitxor(self, other: Rhs) -> (r: Binary<Caret, Constant<T>, Rhs>) {
        Binary::new(Caret, self, other)
    }
}

impl<T, Rhs> BitXorSpecImpl<Rhs> for Constant<T> where Constant<T>: Expression, Rhs: Expression {
    open spec fn obeys_bitxor_spec() -> bool {
        true
    }

    open spec fn bitxor_req(self, rhs: Rhs) -> bool {
        operands_fit(self, rhs)
    }

    open spec fn bitxor_spec(self, rhs: Rhs) -> Binary<Caret, Constant<T>, Rhs> {
        Binary::spec_new(Caret, self, rhs)
    }
}

impl<T> std::ops::Neg for Constant<T> where Constant<T>: Expression {
    type Output = Unary<Minus, Constant<T>>;

    fn neg(self) -> (r: Unary<Minus, Constant<T>>) {
        Unary::new(Minus, self)
    }
}

impl<T> NegSpecImpl for Constant<T> where Constant<T>: Expression {
    open spec fn obeys_neg_spec() -> bool {
        true
    }

    open spec fn neg_req(self) -> bool {
        true
    }

    open spec fn neg_spec(self) -> Unary<Minus, Constant<T>> {
        Unary::spec_new(Minus, self)
    }
}

impl<T> std::ops::Not for Constant<T> where Constant<T>: Expression {
    type Output = Unary<Bang, Constant<T>>;

    fn not(self) -> (r: Unary<Bang, Constant<T>>) {
        Unary::new(Bang, self)
    }
}

impl<T> NotSpecImpl for Constant<T> where Constant<T>: Expression {
    open spec fn obeys_not_spec() -> bool {
        true
    }

    open spec fn not_req(self) -> bool {
        true
    }

    open spec fn not_spec(self) -> Unary<Bang, Constant<T>> {
        Unary::spec_new(Bang, self)
    }
}

// Operators on `Rev<X>`.

impl<X, Rhs> std::ops::Add<Rhs> for Rev<X> where Rev<X>: Expression, Rhs: Expression {
    type Output = Binary<Plus, Rev<X>, Rhs>;

    fn add(self, other: Rhs) -> (r: Binary<Plus, Rev<X>, Rhs>) {
        Binary::new(Plus, self, other)
    }
}

impl<X, Rhs> AddSpecImpl<Rhs> for Rev<X> where Rev<X>: Expression, Rhs: Expression {
    open spec fn obeys_add_spec() -> bool {
        true
    }

    open spec fn add_req(self, rhs: Rhs) -> bool {
        operands_fit(self, rhs)
    }

    open spec fn add_spec(self, rhs: Rhs) -> Binary<Plus, Rev<X>, Rhs> {
        Binary::spec_new(Plus, self, rhs)
    }
}

impl<X, Rhs> std::ops::Sub<Rhs> for Rev<X> where Rev<X>: Expression, Rhs: Expression {
    type Output = Binary<Minus, Rev<X>, Rhs>;

    fn sub(self, other: Rhs) -> (r: Binary<Minus, Rev<X>, Rhs>) {
        Binary::new(Minus, self, other)
    }
}

impl<X, Rhs> SubSpecImpl<Rhs> for Rev<X> where Rev<X>: Expression, Rhs: Expression {
    open spec fn obeys_sub_spec() -> bool {
        true
    }

    open spec fn sub_req(self, rhs: Rhs) -> bool {
        operands_fit(self, rhs)
    }

    open spec fn sub_spec(self, rhs: Rhs) -> Binary<Minus, Rev<X>, Rhs> {
        Binary::spec_new(Minus, self, rhs)
    }
}

impl<X, Rhs> std::ops::Mul<Rhs> for Rev<X> where Rev<X>: Expression, Rhs: Expression {
    type Output = Binary<Times, Rev<X>, Rhs>;

    fn mul(self, other: Rhs) -> (r: Binary<Times, Rev<X>, Rhs>) {
        Binary::new(Times, self, other)
    }
}

impl<X, Rhs> MulSpecImpl<Rhs> for Rev<X> where Rev<X>: Expression, Rhs: Expression {
    open spec fn obeys_mul_spec() -> bool {
        true
    }

    open spec fn mul_req(self, rhs: Rhs) -> bool {
        operands_fit(self, rhs)
    }

    open spec fn mul_spec(self, rhs: Rhs) -> Binary<Times, Rev<X>, Rhs> {
        Binary::spec_new(Times, self, rhs)
    }
}

impl<X, Rhs> std::ops::Div<Rhs> for Rev<X> where Rev<X>: Expression, Rhs: Expression {
    type Output = Binary<Divide, Rev<X>, Rhs>;

    fn div(self, other: Rhs) -> (r: Binary<Divide, Rev<X>, Rhs>) {
        Binary::new(Divide, self, other)
    }
}

impl<X, Rhs> DivSpecImpl<Rhs> for Rev<X> where Rev<X>: Expression, Rhs: Expression {
    open spec fn obeys_div_spec() -> bool {
        true
    }

    open spec fn div_req(self, rhs: Rhs) -> bool {
        operands_fit(self, rhs)
    }

    open spec fn div_spec(self, rhs: Rhs) -> Binary<Divide, Rev<X>, Rhs> {
        Binary::spec_new(Divide, self, rhs)
    }
}

impl<X, Rhs> std::ops::BitOr<Rhs> for Rev<X> where Rev<X>: Expression, Rhs: Expression {
    type Output = Binary<Pipe, Rev<X>, Rhs>;

    fn bitor(self, other: Rhs) -> (r: Binary<Pipe, Rev<X>, Rhs>) {
        Binary::new(Pipe, self, other)
    }
}

impl<X, Rhs> BitOrSpecImpl<Rhs> for Rev<X> where Rev<X>: Expression, Rhs: Expression {
    open spec fn obeys_bitor_spec() -> bool {
        true
    }

    open spec fn bitor_req(self, rhs: Rhs) -> bool {
        operands_fit(self, rhs)
    }

    open spec fn bitor_spec(self, rhs: Rhs) -> Binary<Pipe, Rev<X>, Rhs> {
        Binary::spec_new(Pipe, self, rhs)
    }
}

impl<X, Rhs> std::ops::BitAnd<Rhs> for Rev<X> where Rev<X>: Expression, Rhs: Expression {
    type Output = Binary<Ampersand, Rev<X>, Rhs>;

    fn bitand(self, other: Rhs) -> (r: Binary<Ampersand, Rev<X>, Rhs>) {
        Binary::new(Ampersand, self, other)
    }
}

impl<X, Rhs> BitAndSpecImpl<Rhs> for Rev<X> where Rev<X>: Expression, Rhs: Expression {
    open spec fn obeys_bitand_spec() -> bool {
        true
    }

    open spec fn bitand_req(self, rhs: Rhs) -> bool {
        operands_fit(self, rhs)
    }

    open spec fn bitand_spec(self, rhs: Rhs) -> Binary<Ampersand, Rev<X>, Rhs> {
        Binary::spec_new(Ampersand, self, rhs)
    }
}

impl<X, Rhs> std::ops::BitXor<Rhs> for Rev<X> where Rev<X>: Expression, Rhs: Expression {
    type Output = Binary<Caret, Rev<X>, Rhs>;

    fn bitxor(self, other: Rhs) -> (r: Binary<Caret, Rev<X>, Rhs>) {
        Binary::new(Caret, self, other)
    }
}

impl<X, Rhs> BitXorSpecImpl<Rhs> for Rev<X> where Rev<X>: Expression, Rhs: Expression {
    open spec fn obeys_bitxor_spec() -> bool {
        true
    }

    open spec fn bitxor_req(self, rhs: Rhs) -> bool {
        operands_fit(self, rhs)
    }

    open spec fn bitxor_spec(self, rhs: Rhs) -> Binary<Caret, Rev<X>, Rhs> {
        Binary::spec_new(Caret, self, rhs)
    }
}

impl<X> std::ops::Neg for Rev<X> where Rev<X>: Expression {
    type Output = Unary<Minus, Rev<X>>;

    fn neg(self) -> (r: Unary<Minus, Rev<X>>) {
        Unary::new(Minus, self)
    }
}

impl<X> NegSpecImpl for Rev<X> where Rev<X>: Expression {
    open spec fn obeys_neg_spec() -> bool {
        true
    }

    open spec fn neg_req(self) -> bool {
        true
    }

    open spec fn neg_spec(self) -> Unary<Minus, Rev<X>> {
        Unary::spec_new(Minus, self)
    }
}

impl<X> std::ops::Not for Rev<X> where Rev<X>: Expression {
    type Output = Unary<Bang, Rev<X>>;

    fn not(self) -> (r: Unary<Bang, Rev<X>>) {
        Unary::new(Bang, self)
    }
}

impl<X> NotSpecImpl for Rev<X> where Rev<X>: Expression {
    open spec fn obeys_not_spec() -> bool {
        true
    }

    open spec fn not_req(self) -> bool {
        true
    }

    open spec fn not_spec(self) -> Unary<Bang, Rev<X>> {
        Unary::spec_new(Bang, self)
    }
}

// Operators on `Binary<Op, X, Y>`.

impl<Op, X, Y, Rhs> std::ops::Add<Rhs> for Binary<Op, X, Y> where Binary<Op, X, Y>: Expression, Rhs: Expression {
    type Output = Binary<Plus, Binary<Op, X, Y>, Rhs>;

    fn add(self, other: Rhs) -> (r: Binary<Plus, Binary<Op, X, Y>, Rhs>) {
        Binary::new(Plus, self, other)
    }
}

impl<Op, X, Y, Rhs> AddSpecImpl<Rhs> for Binary<Op, X, Y> where Binary<Op, X, Y>: Expression, Rhs: Expression {
    open spec fn obeys_add_spec() -> bool {
        true
    }

    open spec fn add_req(self, rhs: Rhs) -> bool {
        operands_fit(self, rhs)
    }

    open spec fn add_spec(self, rhs: Rhs) -> Binary<Plus, Binary<Op, X, Y>, Rhs> {
        Binary::spec_new(Plus, self, rhs)
    }
}

impl<Op, X, Y, Rhs> std::ops::Sub<Rhs> for Binary<Op, X, Y> where Binary<Op, X, Y>: Expression, Rhs: Expression {
    type Output = Binary<Minus, Binary<Op, X, Y>, Rhs>;

    fn sub(self, other: Rhs) -> (r: Binary<Minus, Binary<Op, X, Y>, Rhs>) {
        Binary::new(Minus, self, other)
    }
}

impl<Op, X, Y, Rhs> SubSpecImpl<Rhs> for Binary<Op, X, Y> where Binary<Op, X, Y>: Expression, Rhs: Expression {
    open spec fn obeys_sub_spec() -> bool {
        true
    }

    open spec fn sub_req(self, rhs: Rhs) -> bool {
        operands_fit(self, rhs)
    }

    open spec fn sub_spec(self, rhs: Rhs) -> Binary<Minus, Binary<Op, X, Y>, Rhs> {
        Binary::spec_new(Minus, self, rhs)
    }
}

impl<Op, X, Y, Rhs> std::ops::Mul<Rhs> for Binary<Op, X, Y> where Binary<Op, X, Y>: Expression, Rhs: Expression {
    type Output = Binary<Times, Binary<Op, X, Y>, Rhs>;

    fn mul(self, other: Rhs) -> (r: Binary<Times, Binary<Op, X, Y>, Rhs>) {
        Binary::new(Times, self, other)
    }
}

impl<Op, X, Y, Rhs> MulSpecImpl<Rhs> for Binary<Op, X, Y> where Binary<Op, X, Y>: Expression, Rhs: Expression {
    open spec fn obeys_mul_spec() -> bool {
        true
    }

    open spec fn mul_req(self, rhs: Rhs) -> bool {
        operands_fit(self, rhs)
    }

    open spec fn mul_spec(self, rhs: Rhs) -> Binary<Times, Binary<Op, X, Y>, Rhs> {
        Binary::spec_new(Times, self, rhs)
    }
}

impl<Op, X, Y, Rhs> std::ops::Div<Rhs> for Binary<Op, X, Y> where Binary<Op, X, Y>: Expression, Rhs: Expression {
    type Output = Binary<Divide, Binary<Op, X, Y>, Rhs>;

    fn div(self, other: Rhs) -> (r: Binary<Divide, Binary<Op, X, Y>, Rhs>) {
        Binary::new(Divide, self, other)
    }
}

impl<Op, X, Y, Rhs> DivSpecImpl<Rhs> for Binary<Op, X, Y> where Binary<Op, X, Y>: Expression, Rhs: Expression {
    open spec fn obeys_div_spec() -> bool {
        true
    }

    open spec fn div_req(self, rhs: Rhs) -> bool {
        operands_fit(self, rhs)
    }

    open spec fn div_spec(self, rhs: Rhs) -> Binary<Divide, Binary<Op, X, Y>, Rhs> {
        Binary::spec_new(Divide, self, rhs)
    }
}

impl<Op, X, Y, Rhs> std::ops::BitOr<Rhs> for Binary<Op, X, Y> where Binary<Op, X, Y>: Expression, Rhs: Expression {
    type Output = Binary<Pipe, Binary<Op, X, Y>, Rhs>;

    fn bitor(self, other: Rhs) -> (r: Binary<Pipe, Binary<Op, X, Y>, Rhs>) {
        Binary::new(Pipe, self, other)
    }
}

impl<Op, X, Y, Rhs> BitOrSpecImpl<Rhs> for Binary<Op, X, Y> where Binary<Op, X, Y>: Expression, Rhs: Expression {
    open spec fn obeys_bitor_spec() -> bool {
        true
    }

    open spec fn bitor_req(self, rhs: Rhs) -> bool {
        operands_fit(self, rhs)
    }

    open spec fn bitor_spec(self, rhs: Rhs) -> Binary<Pipe, Binary<Op, X, Y>, Rhs> {
        Binary::spec_new(Pipe, self, rhs)
    }
}

impl<Op, X, Y, Rhs> std::ops::BitAnd<Rhs> for Binary<Op, X, Y> where Binary<Op, X, Y>: Expression, Rhs: Expression {
    type Output = Binary<Ampersand, Binary<Op, X, Y>, Rhs>;

    fn bitand(self, other: Rhs) -> (r: Binary<Ampersand, Binary<Op, X, Y>, Rhs>) {
        Binary::new(Ampersand, self, other)
    }
}

impl<Op, X, Y, Rhs> BitAndSpecImpl<Rhs> for Binary<Op, X, Y> where Binary<Op, X, Y>: Expression, Rhs: Expression {
    open spec fn obeys_bitand_spec() -> bool {
        true
    }

    open spec fn bitand_req(self, rhs: Rhs) -> bool {
        operands_fit(self, rhs)
    }

    open spec fn bitand_spec(self, rhs: Rhs) -> Binary<Ampersand, Binary<Op, X, Y>, Rhs> {
        Binary::spec_new(Ampersand, self, rhs)
    }
}

impl<Op, X, Y, Rhs> std::ops::BitXor<Rhs> for Binary<Op, X, Y> where Binary<Op, X, Y>: Expression, Rhs: Expression {
    type Output = Binary<Caret, Binary<Op, X, Y>, Rhs>;

    fn bitxor(self, other: Rhs) -> (r: Binary<Caret, Binary<Op, X, Y>, Rhs>) {
        Binary::new(Caret, self, other)
    }
}

impl<Op, X, Y, Rhs> BitXorSpecImpl<Rhs> for Binary<Op, X, Y> where Binary<Op, X, Y>: Expression, Rhs: Expression {
    open spec fn obeys_bitxor_spec() -> bool {
        true
    }

    open spec fn bitxor_req(self, rhs: Rhs) -> bool {
        operands_fit(self, rhs)
    }

    open spec fn bitxor_spec(self, rhs: Rhs) -> Binary<Caret, Binary<Op, X, Y>, Rhs> {
        Binary::spec_new(Caret, self, rhs)
    }
}

impl<Op, X, Y> std::ops::Neg for Binary<Op, X, Y> where Binary<Op, X, Y>: Expression {
    type Output = Unary<Minus, Binary<Op, X, Y>>;

    fn neg(self) -> (r: Unary<Minus, Binary<Op, X, Y>>) {
        Unary::new(Minus, self)
    }
}

impl<Op, X, Y> NegSpecImpl for Binary<Op, X, Y> where Binary<Op, X, Y>: Expression {
    open spec fn obeys_neg_spec() -> bool {
        true
    }

    open spec fn neg_req(self) -> bool {
        true
    }

    open spec fn neg_spec(self) -> Unary<Minus, Binary<Op, X, Y>> {
        Unary::spec_new(Minus, self)
    }
}

impl<Op, X, Y> std::ops::Not for Binary<Op, X, Y> where Binary<Op, X, Y>: Expression {
    type Output = Unary<Bang, Binary<Op, X, Y>>;

    fn not(self) -> (r: Unary<Bang, Binary<Op, X, Y>>) {
        Unary::new(Bang, self)
    }
}

impl<Op, X, Y> NotSpecImpl for Binary<Op, X, Y> where Binary<Op, X, Y>: Expression {
    open spec fn obeys_not_spec() -> bool {
        true
    }

    open spec fn not_req(self) -> bool {
        true
    }

    open spec fn not_spec(self) -> Unary<Bang, Binary<Op, X, Y>> {
        Unary::spec_new(Bang, self)
    }
}

// Operators on `Unary<Op, X>`.

impl<Op, X, Rhs> std::ops::Add<Rhs> for Unary<Op, X> where Unary<Op, X>: Expression, Rhs: Expression {
    type Output = Binary<Plus, Unary<Op, X>, Rhs>;

    fn add(self, other: Rhs) -> (r: Binary<Plus, Unary<Op, X>, Rhs>) {
        Binary::new(Plus, self, other)
    }
}

impl<Op, X, Rhs> AddSpecImpl<Rhs> for Unary<Op, X> where Unary<Op, X>: Expression, Rhs: Expression {
    open spec fn obeys_add_spec() -> bool {
        true
    }

    open spec fn add_req(self, rhs: Rhs) -> bool {
        operands_fit(self, rhs)
    }

    open spec fn add_spec(self, rhs: Rhs) -> Binary<Plus, Unary<Op, X>, Rhs> {
        Binary::spec_new(Plus, self, rhs)
    }
}

impl<Op, X, Rhs> std::ops::Sub<Rhs> for Unary<Op, X> where Unary<Op, X>: Expression, Rhs: Expression {
    type Output = Binary<Minus, Unary<Op, X>, Rhs>;

    fn sub(self, other: Rhs) -> (r: Binary<Minus, Unary<Op, X>, Rhs>) {
        Binary::new(Minus, self, other)
    }
}

impl<Op, X, Rhs> SubSpecImpl<Rhs> for Unary<Op, X> where Unary<Op, X>: Expression, Rhs: Expression {
    open spec fn obeys_sub_spec() -> bool {
        true
    }

    open spec fn sub_req(self, rhs: Rhs) -> bool {
        operands_fit(self, rhs)
    }

    open spec fn sub_spec(self, rhs: Rhs) -> Binary<Minus, Unary<Op, X>, Rhs> {
        Binary::spec_new(Minus, self, rhs)
    }
}

impl<Op, X, Rhs> std::ops::Mul<Rhs> for Unary<Op, X> where Unary<Op, X>: Expression, Rhs: Expression {
    type Output = Binary<Times, Unary<Op, X>, Rhs>;

    fn mul(self, other: Rhs) -> (r: Binary<Times, Unary<Op, X>, Rhs>) {
        Binary::new(Times, self, other)
    }
}

impl<Op, X, Rhs> MulSpecImpl<Rhs> for Unary<Op, X> where Unary<Op, X>: Expression, Rhs: Expression {
    open spec fn obeys_mul_spec() -> bool {
        true
    }

    open spec fn mul_req(self, rhs: Rhs) -> bool {
        operands_fit(self, rhs)
    }

    open spec fn mul_spec(self, rhs: Rhs) -> Binary<Times, Unary<Op, X>, Rhs> {
        Binary::spec_new(Times, self, rhs)
    }
}

impl<Op, X, Rhs> std::ops::Div<Rhs> for Unary<Op, X> where Unary<Op, X>: Expression, Rhs: Expression {
    type Output = Binary<Divide, Unary<Op, X>, Rhs>;

    fn div(self, other: Rhs) -> (r: Binary<Divide, Unary<Op, X>, Rhs>) {
        Binary::new(Divide, self, other)
    }
}

impl<Op, X, Rhs> DivSpecImpl<Rhs> for Unary<Op, X> where Unary<Op, X>: Expression, Rhs: Expression {
    open spec fn obeys_div_spec() -> bool {
        true
    }

    open spec fn div_req(self, rhs: Rhs) -> bool {
        operands_fit(self, rhs)
    }

    open spec fn div_spec(self, rhs: Rhs) -> Binary<Divide, Unary<Op, X>, Rhs> {
        Binary::spec_new(Divide, self, rhs)
    }
}

impl<Op, X, Rhs> std::ops::BitOr<Rhs> for Unary<Op, X> where Unary<Op, X>: Expression, Rhs: Expression {
    type Output = Binary<Pipe, Unary<Op, X>, Rhs>;

    fn bitor(self, other: Rhs) -> (r: Binary<Pipe, Unary<Op, X>, Rhs>) {
        Binary::new(Pipe, self, other)
    }
}

impl<Op, X, Rhs> BitOrSpecImpl<Rhs> for Unary<Op, X> where Unary<Op, X>: Expression, Rhs: Expression {
    open spec fn obeys_bitor_spec() -> bool {
        true
    }

    open spec fn bitor_req(self, rhs: Rhs) -> bool {
        operands_fit(self, rhs)
    }

    open spec fn bitor_spec(self, rhs: Rhs) -> Binary<Pipe, Unary<Op, X>, Rhs> {
        Binary::spec_new(Pipe, self, rhs)
    }
}

impl<Op, X, Rhs> std::ops::BitAnd<Rhs> for Unary<Op, X> where Unary<Op, X>: Expression, Rhs: Expression {
    type Output = Binary<Ampersand, Unary<Op, X>, Rhs>;

    fn bitand(self, other: Rhs) -> (r: Binary<Ampersand, Unary<Op, X>, Rhs>) {
        Binary::new(Ampersand, self, other)
    }
}

impl<Op, X, Rhs> BitAndSpecImpl<Rhs> for Unary<Op, X> where Unary<Op, X>: Expression, Rhs: Expression {
    open spec fn obeys_bitand_spec() -> bool {
        true
    }

    open spec fn bitand_req(self, rhs: Rhs) -> bool {
        operands_fit(self, rhs)
    }

    open spec fn bitand_spec(self, rhs: Rhs) -> Binary<Ampersand, Unary<Op, X>, Rhs> {
        Binary::spec_new(Ampersand, self, rhs)
    }
}

impl<Op, X, Rhs> std::ops::BitXor<Rhs> for Unary<Op, X> where Unary<Op, X>: Expression, Rhs: Expression {
    type Output = Binary<Caret, Unary<Op, X>, Rhs>;

    fn bitxor(self, other: Rhs) -> (r: Binary<Caret, Unary<Op, X>, Rhs>) {
        Binary::new(Caret, self, other)
    }
}

impl<Op, X, Rhs> BitXorSpecImpl<Rhs> for Unary<Op, X> where Unary<Op, X>: Expression, Rhs: Expression {
    open spec fn obeys_bitxor_spec() -> bool {
        true
    }

    open spec fn bitxor_req(self, rhs: Rhs) -> bool {
        operands_fit(self, rhs)
    }

    open spec fn bitxor_spec(self, rhs: Rhs) -> Binary<Caret, Unary<Op, X>, Rhs> {
        Binary::spec_new(Caret, self, rhs)
    }
}

impl<Op, X> std::ops::Neg for Unary<Op, X> where Unary<Op, X>: Expression {
    type Output = Unary<Minus, Unary<Op, X>>;

    fn neg(self) -> (r: Unary<Minus, Unary<Op, X>>) {
        Unary::new(Minus, self)
    }
}

impl<Op, X> NegSpecImpl for Unary<Op, X> where Unary<Op, X>: Expression {
    open spec fn obeys_neg_spec() -> bool {
        true
    }

    open spec fn neg_req(self) -> bool {
        true
    }

    open spec fn neg_spec(self) -> Unary<Minus, Unary<Op, X>> {
        Unary::spec_new(Minus, self)
    }
}

impl<Op, X> std::ops::Not for Unary<Op, X> where Unary<Op, X>: Expression {
    type Output = Unary<Bang, Unary<Op, X>>;

    fn not(self) -> (r: Unary<Bang, Unary<Op, X>>) {
        Unary::new(Bang, self)
    }
}

impl<Op, X> NotSpecImpl for Unary<Op, X> where Unary<Op, X>: Expression {
    open spec fn obeys_not_spec() -> bool {
        true
    }

    open spec fn not_req(self) -> bool {
        true
    }

    open spec fn not_spec(self) -> Unary<Bang, Unary<Op, X>> {
        Unary::spec_new(Bang, self)
    }
}

// Operators on `Zip<X, Y>`.

impl<X, Y, Rhs> std::ops::Add<Rhs> for Zip<X, Y> where Zip<X, Y>: Expression, Rhs: Expression {
    type Output = Binary<Plus, Zip<X, Y>, Rhs>;

    fn add(self, other: Rhs) -> (r: Binary<Plus, Zip<X, Y>, Rhs>) {
        Binary::new(Plus, self, other)
    }
}

impl<X, Y, Rhs> AddSpecImpl<Rhs> for Zip<X, Y> where Zip<X, Y>: Expression, Rhs: Expression {
    open spec fn obeys_add_spec() -> bool {
        true
    }

    open spec fn add_req(self, rhs: Rhs) -> bool {
        operands_fit(self, rhs)
    }

    open spec fn add_spec(self, rhs: Rhs) -> Binary<Plus, Zip<X, Y>, Rhs> {
        Binary::spec_new(Plus, self, rhs)
    }
}

impl<X, Y, Rhs> std::ops::Sub<Rhs> for Zip<X, Y> where Zip<X, Y>: Expression, Rhs: Expression {
    type Output = Binary<Minus, Zip<X, Y>, Rhs>;

    fn sub(self, other: Rhs) -> (r: Binary<Minus, Zip<X, Y>, Rhs>) {
        Binary::new(Minus, self, other)
    }
}

impl<X, Y, Rhs> SubSpecImpl<Rhs> for Zip<X, Y> where Zip<X, Y>: Expression, Rhs: Expression {
    open spec fn obeys_sub_spec() -> bool {
        true
    }

    open spec fn sub_req(self, rhs: Rhs) -> bool {
        operands_fit(self, rhs)
    }

    open spec fn sub_spec(self, rhs: Rhs) -> Binary<Minus, Zip<X, Y>, Rhs> {
        Binary::spec_new(Minus, self, rhs)
    }
}

impl<X, Y, Rhs> std::ops::Mul<Rhs> for Zip<X, Y> where Zip<X, Y>: Expression, Rhs: Expression {
    type Output = Binary<Times, Zip<X, Y>, Rhs>;

    fn mul(self, other: Rhs) -> (r: Binary<Times, Zip<X, Y>, Rhs>) {
        Binary::new(Times, self, other)
    }
}

impl<X, Y, Rhs> MulSpecImpl<Rhs> for Zip<X, Y> where Zip<X, Y>: Expression, Rhs: Expression {
    open spec fn obeys_mul_spec() -> bool {
        true
    }

    open spec fn mul_req(self, rhs: Rhs) -> bool {
        operands_fit(self, rhs)
    }

    open spec fn mul_spec(self, rhs: Rhs) -> Binary<Times, Zip<X, Y>, Rhs> {
        Binary::spec_new(Times, self, rhs)
    }
}

impl<X, Y, Rhs> std::ops::Div<Rhs> for Zip<X, Y> where Zip<X, Y>: Expression, Rhs: Expression {
    type Output = Binary<Divide, Zip<X, Y>, Rhs>;

    fn div(self, other: Rhs) -> (r: Binary<Divide, Zip<X, Y>, Rhs>) {
        Binary::new(Divide, self, other)
    }
}

impl<X, Y, Rhs> DivSpecImpl<Rhs> for Zip<X, Y> where Zip<X, Y>: Expression, Rhs: Expression {
    open spec fn obeys_div_spec() -> bool {
        true
    }

    open spec fn div_req(self, rhs: Rhs) -> bool {
        operands_fit(self, rhs)
    }

    open spec fn div_spec(self, rhs: Rhs) -> Binary<Divide, Zip<X, Y>, Rhs> {
        Binary::spec_new(Divide, self, rhs)
    }
}

impl<X, Y, Rhs> std::ops::BitOr<Rhs> for Zip<X, Y> where Zip<X, Y>: Expression, Rhs: Expression {
    type Output = Binary<Pipe, Zip<X, Y>, Rhs>;

    fn bitor(self, other: Rhs) -> (r: Binary<Pipe, Zip<X, Y>, Rhs>) {
        Binary::new(Pipe, self, other)
    }
}

impl<X, Y, Rhs> BitOrSpecImpl<Rhs> for Zip<X, Y> where Zip<X, Y>: Expression, Rhs: Expression {
    open spec fn obeys_bitor_spec() -> bool {
        true
    }

    open spec fn bitor_req(self, rhs: Rhs) -> bool {
        operands_fit(self, rhs)
    }

    open spec fn bitor_spec(self, rhs: Rhs) -> Binary<Pipe, Zip<X, Y>, Rhs> {
        Binary::spec_new(Pipe, self, rhs)
    }
}

impl<X, Y, Rhs> std::ops::BitAnd<Rhs> for Zip<X, Y> where Zip<X, Y>: Expression, Rhs: Expression {
    type Output = Binary<Ampersand, Zip<X, Y>, Rhs>;

    fn bitand(self, other: Rhs) -> (r: Binary<Ampersand, Zip<X, Y>, Rhs>) {
        Binary::new(Ampersand, self, other)
    }
}

impl<X, Y, Rhs> BitAndSpecImpl<Rhs> for Zip<X, Y> where Zip<X, Y>: Expression, Rhs: Expression {
    open spec fn obeys_bitand_spec() -> bool {
        true
    }

    open spec fn bitand_req(self, rhs: Rhs) -> bool {
        operands_fit(self, rhs)
    }

    open spec fn bitand_spec(self, rhs: Rhs) -> Binary<Ampersand, Zip<X, Y>, Rhs> {
        Binary::spec_new(Ampersand, self, rhs)
    }
}

impl<X, Y, Rhs> std::ops::BitXor<Rhs> for Zip<X, Y> where Zip<X, Y>: Expression, Rhs: Expression {
    type Output = Binary<Caret, Zip<X, Y>, Rhs>;

    fn bitxor(self, other: Rhs) -> (r: Binary<Caret, Zip<X, Y>, Rhs>) {
        Binary::new(Caret, self, other)
    }
}

impl<X, Y, Rhs> BitXorSpecImpl<Rhs> for Zip<X, Y> where Zip<X, Y>: Expression, Rhs: Expression {
    open spec fn obeys_bitxor_spec() -> bool {
        true
    }

    open spec fn bitxor_req(self, rhs: Rhs) -> bool {
        operands_fit(self, rhs)
    }

    open spec fn bitxor_spec(self, rhs: Rhs) -> Binary<Caret, Zip<X, Y>, Rhs> {
        Binary::spec_new(Caret, self, rhs)
    }
}

impl<X, Y> std::ops::Neg for Zip<X, Y> where Zip<X, Y>: Expression {
    type Output = Unary<Minus, Zip<X, Y>>;

    fn neg(self) -> (r: Unary<Minus, Zip<X, Y>>) {
        Unary::new(Minus, self)
    }
}

impl<X, Y> NegSpecImpl for Zip<X, Y> where Zip<X, Y>: Expression {
    open spec fn obeys_neg_spec() -> bool {
        true
    }

    open spec fn neg_req(self) -> bool {
        true
    }

    open spec fn neg_spec(self) -> Unary<Minus, Zip<X, Y>> {
        Unary::spec_new(Minus, self)
    }
}

impl<X, Y> std::ops::Not for Zip<X, Y> where Zip<X, Y>: Expression {
    type Output = Unary<Bang, Zip<X, Y>>;

    fn not(self) -> (r: Unary<Bang, Zip<X, Y>>) {
        Unary::new(Bang, self)
    }
}

impl<X, Y> NotSpecImpl for Zip<X, Y> where Zip<X, Y>: Expression {
    open spec fn obeys_not_spec() -> bool {
        true
    }

    open spec fn not_req(self) -> bool {
        true
    }

    open spec fn not_spec(self) -> Unary<Bang, Zip<X, Y>> {
        Unary::spec_new(Bang, self)
    }
}

// Operators on `Mapped<X, F>`.

impl<X, F, Rhs> std::ops::Add<Rhs> for Mapped<X, F> where Mapped<X, F>: Expression, Rhs: Expression {
    type Output = Binary<Plus, Mapped<X, F>, Rhs>;

    fn add(self, other: Rhs) -> (r: Binary<Plus, Mapped<X, F>, Rhs>) {
        Binary::new(Plus, self, other)
    }
}

impl<X, F, Rhs> AddSpecImpl<Rhs> for Mapped<X, F> where Mapped<X, F>: Expression, Rhs: Expression {
    open spec fn obeys_add_spec() -> bool {
        true
    }

    open spec fn add_req(self, rhs: Rhs) -> bool {
        operands_fit(self, rhs)
    }

    open spec fn add_spec(self, rhs: Rhs) -> Binary<Plus, Mapped<X, F>, Rhs> {
        Binary::spec_new(Plus, self, rhs)
    }
}

impl<X, F, Rhs> std::ops::Sub<Rhs> for Mapped<X, F> where Mapped<X, F>: Expression, Rhs: Expression {
    type Output = Binary<Minus, Mapped<X, F>, Rhs>;

    fn sub(self, other: Rhs) -> (r: Binary<Minus, Mapped<X, F>, Rhs>) {
        Binary::new(Minus, self, other)
    }
}

impl<X, F, Rhs> SubSpecImpl<Rhs> for Mapped<X, F> where Mapped<X, F>: Expression, Rhs: Expression {
    open spec fn obeys_sub_spec() -> bool {
        true
    }

    open spec fn sub_req(self, rhs: Rhs) -> bool {
        operands_fit(self, rhs)
    }

    open spec fn sub_spec(self, rhs: Rhs) -> Binary<Minus, Mapped<X, F>, Rhs> {
        Binary::spec_new(Minus, self, rhs)
    }
}

impl<X, F, Rhs> std::ops::Mul<Rhs> for Mapped<X, F> where Mapped<X, F>: Expression, Rhs: Expression {
    type Output = Binary<Times, Mapped<X, F>, Rhs>;

    fn mul(self, other: Rhs) -> (r: Binary<Times, Mapped<X, F>, Rhs>) {
        Binary::new(Times, self, other)
    }
}

impl<X, F, Rhs> MulSpecImpl<Rhs> for Mapped<X, F> where Mapped<X, F>: Expression, Rhs: Expression {
    open spec fn obeys_mul_spec() -> bool {
        true
    }

    open spec fn mul_req(self, rhs: Rhs) -> bool {
        operands_fit(self, rhs)
    }

    open spec fn mul_spec(self, rhs: Rhs) -> Binary<Times, Mapped<X, F>, Rhs> {
        Binary::spec_new(Times, self, rhs)
    }
}

impl<X, F, Rhs> std::ops::Div<Rhs> for Mapped<X, F> where Mapped<X, F>: Expression, Rhs: Expression {
    type Output = Binary<Divide, Mapped<X, F>, Rhs>;

    fn div(self, other: Rhs) -> (r: Binary<Divide, Mapped<X, F>, Rhs>) {
        Binary::new(Divide, self, other)
    }
}

impl<X, F, Rhs> DivSpecImpl<Rhs> for Mapped<X, F> where Mapped<X, F>: Expression, Rhs: Expression {
    open spec fn obeys_div_spec() -> bool {
        true
    }

    open spec fn div_req(self, rhs: Rhs) -> bool {
        operands_fit(self, rhs)
    }

    open spec fn div_spec(self, rhs: Rhs) -> Binary<Divide, Mapped<X, F>, Rhs> {
        Binary::spec_new(Divide, self, rhs)
    }
}

impl<X, F, Rhs> std::ops::BitOr<Rhs> for Mapped<X, F> where Mapped<X, F>: Expression, Rhs: Expression {
    type Output = Binary<Pipe, Mapped<X, F>, Rhs>;

    fn bitor(self, other: Rhs) -> (r: Binary<Pipe, Mapped<X, F>, Rhs>) {
        Binary::new(Pipe, self, other)
    }
}

impl<X, F, Rhs> BitOrSpecImpl<Rhs> for Mapped<X, F> where Mapped<X, F>: Expression, Rhs: Expression {
    open spec fn obeys_bitor_spec() -> bool {
        true
    }

    open spec fn bitor_req(self, rhs: Rhs) -> bool {
        operands_fit(self, rhs)
    }

    open spec fn bitor_spec(self, rhs: Rhs) -> Binary<Pipe, Mapped<X, F>, Rhs> {
        Binary::spec_new(Pipe, self, rhs)
    }
}

impl<X, F, Rhs> std::ops::BitAnd<Rhs> for Mapped<X, F> where Mapped<X, F>: Expression, Rhs: Expression {
    type Output = Binary<Ampersand, Mapped<X, F>, Rhs>;

    fn bitand(self, other: Rhs) -> (r: Binary<Ampersand, Mapped<X, F>, Rhs>) {
        Binary::new(Ampersand, self, other)
    }
}

impl<X, F, Rhs> BitAndSpecImpl<Rhs> for Mapped<X, F> where Mapped<X, F>: Expression, Rhs: Expression {
    open spec fn obeys_bitand_spec() -> bool {
        true
    }

    open spec fn bitand_req(self, rhs: Rhs) -> bool {
        operands_fit(self, rhs)
    }

    open spec fn bitand_spec(self, rhs: Rhs) -> Binary<Ampersand, Mapped<X, F>, Rhs> {
        Binary::spec_new(Ampersand, self, rhs)
    }
}

impl<X, F, Rhs> std::ops::BitXor<Rhs> for Mapped<X, F> where Mapped<X, F>: Expression, Rhs: Expression {
    type Output = Binary<Caret, Mapped<X, F>, Rhs>;

    fn bitxor(self, other: Rhs) -> (r: Binary<Caret, Mapped<X, F>, Rhs>) {
        Binary::new(Caret, self, other)
    }
}

impl<X, F, Rhs> BitXorSpecImpl<Rhs> for Mapped<X, F> where Mapped<X, F>: Expression, Rhs: Expression {
    open spec fn obeys_bitxor_spec() -> bool {
        true
    }

    open spec fn bitxor_req(self, rhs: Rhs) -> bool {
        operands_fit(self, rhs)
    }

    open spec fn bitxor_spec(self, rhs: Rhs) -> Binary<Caret, Mapped<X, F>, Rhs> {
        Binary::spec_new(Caret, self, rhs)
    }
}

impl<X, F> std::ops::Neg for Mapped<X, F> where Mapped<X, F>: Expression {
    type Output = Unary<Minus, Mapped<X, F>>;

    fn neg(self) -> (r: Unary<Minus, Mapped<X, F>>) {
        Unary::new(Minus, self)
    }
}

impl<X, F> NegSpecImpl for Mapped<X, F> where Mapped<X, F>: Expression {
    open spec fn obeys_neg_spec() -> bool {
        true
    }

    open spec fn neg_req(self) -> bool {
        true
    }

    open spec fn neg_spec(self) -> Unary<Minus, Mapped<X, F>> {
        Unary::spec_new(Minus, self)
    }
}

impl<X, F> std::ops::Not for Mapped<X, F> where Mapped<X, F>: Expression {
    type Output = Unary<Bang, Mapped<X, F>>;

    fn not(self) -> (r: Unary<Bang, Mapped<X, F>>) {
        Unary::new(Bang, self)
    }
}

impl<X, F> NotSpecImpl for Mapped<X, F> where Mapped<X, F>: Expression {
    open spec fn obeys_not_spec() -> bool {
        true
    }

    open spec fn not_req(self) -> bool {
        true
    }

    open spec fn not_spec(self) -> Unary<Bang, Mapped<X, F>> {
        Unary::spec_new(Bang, self)
    }
}

// Operators on `Switch<B, T, U>`.

impl<B, T, U, Rhs> std::ops::Add<Rhs> for Switch<B, T, U> where Switch<B, T, U>: Expression, Rhs: Expression {
    type Output = Binary<Plus, Switch<B, T, U>, Rhs>;

    fn add(self, other: Rhs) -> (r: Binary<Plus, Switch<B, T, U>, Rhs>) {
        Binary::new(Plus, self, other)
    }
}

impl<B, T, U, Rhs> AddSpecImpl<Rhs> for Switch<B, T, U> where Switch<B, T, U>: Expression, Rhs: Expression {
    open spec fn obeys_add_spec() -> bool {
        true
    }

    open spec fn add_req(self, rhs: Rhs) -> bool {
        operands_fit(self, rhs)
    }

    open spec fn add_spec(self, rhs: Rhs) -> Binary<Plus, Switch<B, T, U>, Rhs> {
        Binary::spec_new(Plus, self, rhs)
    }
}

impl<B, T, U, Rhs> std::ops::Sub<Rhs> for Switch<B, T, U> where Switch<B, T, U>: Expression, Rhs: Expression {
    type Output = Binary<Minus, Switch<B, T, U>, Rhs>;

    fn sub(self, other: Rhs) -> (r: Binary<Minus, Switch<B, T, U>, Rhs>) {
        Binary::new(Minus, self, other)
    }
}

impl<B, T, U, Rhs> SubSpecImpl<Rhs> for Switch<B, T, U> where Switch<B, T, U>: Expression, Rhs: Expression {
    open spec fn obeys_sub_spec() -> bool {
        true
    }

    open spec fn sub_req(self, rhs: Rhs) -> bool {
        operands_fit(self, rhs)
    }

    open spec fn sub_spec(self, rhs: Rhs) -> Binary<Minus, Switch<B, T, U>, Rhs> {
        Binary::spec_new(Minus, self, rhs)
    }
}

impl<B, T, U, Rhs> std::ops::Mul<Rhs> for Switch<B, T, U> where Switch<B, T, U>: Expression, Rhs: Expression {
    type Output = Binary<Times, Switch<B, T, U>, Rhs>;

    fn mul(self, other: Rhs) -> (r: Binary<Times, Switch<B, T, U>, Rhs>) {
        Binary::new(Times, self, other)
    }
}

impl<B, T, U, Rhs> MulSpecImpl<Rhs> for Switch<B, T, U> where Switch<B, T, U>: Expression, Rhs: Expression {
    open spec fn obeys_mul_spec() -> bool {
        true
    }

    open spec fn mul_req(self, rhs: Rhs) -> bool {
        operands_fit(self, rhs)
    }

    open spec fn mul_spec(self, rhs: Rhs) -> Binary<Times, Switch<B, T, U>, Rhs> {
        Binary::spec_new(Times, self, rhs)
    }
}

impl<B, T, U, Rhs> std::ops::Div<Rhs> for Switch<B, T, U> where Switch<B, T, U>: Expression, Rhs: Expression {
    type Output = Binary<Divide, Switch<B, T, U>, Rhs>;

    fn div(self, other: Rhs) -> (r: Binary<Divide, Switch<B, T, U>, Rhs>) {
        Binary::new(Divide, self, other)
    }
}

impl<B, T, U, Rhs> DivSpecImpl<Rhs> for Switch<B, T, U> where Switch<B, T, U>: Expression, Rhs: Expression {
    open spec fn obeys_div_spec() -> bool {
        true
    }

    open spec fn div_req(self, rhs: Rhs) -> bool {
        operands_fit(self, rhs)
    }

    open spec fn div_spec(self, rhs: Rhs) -> Binary<Divide, Switch<B, T, U>, Rhs> {
        Binary::spec_new(Divide, self, rhs)
    }
}

impl<B, T, U, Rhs> std::ops::BitOr<Rhs> for Switch<B, T, U> where Switch<B, T, U>: Expression, Rhs: Expression {
    type Output = Binary<Pipe, Switch<B, T, U>, Rhs>;

    fn bitor(self, other: Rhs) -> (r: Binary<Pipe, Switch<B, T, U>, Rhs>) {
        Binary::new(Pipe, self, other)
    }
}

impl<B, T, U, Rhs> BitOrSpecImpl<Rhs> for Switch<B, T, U> where Switch<B, T, U>: Expression, Rhs: Expression {
    open spec fn obeys_bitor_spec() -> bool {
        true
    }

    open spec fn bitor_req(self, rhs: Rhs) -> bool {
        operands_fit(self, rhs)
    }

    open spec fn bitor_spec(self, rhs: Rhs) -> Binary<Pipe, Switch<B, T, U>, Rhs> {
        Binary::spec_new(Pipe, self, rhs)
    }
}

impl<B, T, U, Rhs> std::ops::BitAnd<Rhs> for Switch<B, T, U> where Switch<B, T, U>: Expression, Rhs: Expression {
    type Output = Binary<Ampersand, Switch<B, T, U>, Rhs>;

    fn bitand(self, other: Rhs) -> (r: Binary<Ampersand, Switch<B, T, U>, Rhs>) {
        Binary::new(Ampersand, self, other)
    }
}

impl<B, T, U, Rhs> BitAndSpecImpl<Rhs> for Switch<B, T, U> where Switch<B, T, U>: Expression, Rhs: Expression {
    open spec fn obeys_bitand_spec() -> bool {
        true
    }

    open spec fn bitand_req(self, rhs: Rhs) -> bool {
        operands_fit(self, rhs)
    }

    open spec fn bitand_spec(self, rhs: Rhs) -> Binary<Ampersand, Switch<B, T, U>, Rhs> {
        Binary::spec_new(Ampersand, self, rhs)
    }
}

impl<B, T, U, Rhs> std::ops::BitXor<Rhs> for Switch<B, T, U> where Switch<B, T, U>: Expression, Rhs: Expression {
    type Output = Binary<Caret, Switch<B, T, U>, Rhs>;

    fn bitxor(self, other: Rhs) -> (r: Binary<Caret, Switch<B, T, U>, Rhs>) {
        Binary::new(Caret, self, other)
    }
}

impl<B, T, U, Rhs> BitXorSpecImpl<Rhs> for Switch<B, T, U> where Switch<B, T, U>: Expression, Rhs: Expression {
    open spec fn obeys_bitxor_spec() -> bool {
        true
    }

    open spec fn bitxor_req(self, rhs: Rhs) -> bool {
        operands_fit(self, rhs)
    }

    open spec fn bitxor_spec(self, rhs: Rhs) -> Binary<Caret, Switch<B, T, U>, Rhs> {
        Binary::spec_new(Caret, self, rhs)
    }
}

impl<B, T, U> std::ops::Neg for Switch<B, T, U> where Switch<B, T, U>: Expression {
    type Output = Unary<Minus, Switch<B, T, U>>;

    fn neg(self) -> (r: Unary<Minus, Switch<B, T, U>>) {
        Unary::new(Minus, self)
    }
}

impl<B, T, U> NegSpecImpl for Switch<B, T, U> where Switch<B, T, U>: Expression {
    open spec fn obeys_neg_spec() -> bool {
        true
    }

    open spec fn neg_req(self) -> bool {
        true
    }

    open spec fn neg_spec(self) -> Unary<Minus, Switch<B, T, U>> {
        Unary::spec_new(Minus, self)
    }
}

impl<B, T, U> std::ops::Not for Switch<B, T, U> where Switch<B, T, U>: Expression {
    type Output = Unary<Bang, Switch<B, T, U>>;

    fn not(self) -> (r: Unary<Bang, Switch<B, T, U>>) {
        Unary::new(Bang, self)
    }
}

impl<B, T, U> NotSpecImpl for Switch<B, T, U> where Switch<B, T, U>: Expression {
    open spec fn obeys_not_spec() -> bool {
        true
    }

    open spec fn not_req(self) -> bool {
        true
    }

    open spec fn not_spec(self) -> Unary<Bang, Switch<B, T, U>> {
        Unary::spec_new(Bang, self)
    }
}

} // verus!
