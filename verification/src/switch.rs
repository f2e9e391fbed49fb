//! Choosing, index by index, between the elements of two expressions.
use vstd::prelude::*;
use crate::{Expression, Reversible, Length};

verus! {

/// A condition that picks one of two values.
pub trait SwitchOn<T> {
    spec fn chosen(self, t: T, e: T) -> T;

    fn switch(self, t: T, e: T) -> (r: T)
        ensures
            r == self.chosen(t, e),
    ;
}

impl<T> SwitchOn<T> for bool {
    open spec fn chosen(self, t: T, e: T) -> T {
        if self {
            t
        } else {
            e
        }
    }

    fn switch(self, t: T, e: T) -> (r: T) {
        if self {
            t
        } else {
            e
        }
    }
}

/// A true condition picks the first value and a false one the second.
pub proof fn lemma_switch_bool<T>(t: T, e: T)
    ensures
        true.chosen(t, e) == t,
        false.chosen(t, e) == e,
{
}

/// At each index, the element of the second expression where the condition holds,
/// and of the third where it does not.
#[derive(Copy, Clone)]
pub struct Switch<B, T, U>(B, T, U);

impl<B, T, U> Switch<B, T, U> {
    pub closed spec fn condition(self) -> B {
        self.0
    }

    pub closed spec fn then_branch(self) -> T {
        self.1
    }

    pub closed spec fn else_branch(self) -> U {
        self.2
    }
}

/// Chooses between `t` and `e` by `b`, index by index.
pub fn make_switch<B, T, U>(b: B, t: T, e: U) -> (r: Switch<B, T, U>) where
    B: Expression,
    B::Element: SwitchOn<T::Element>,
    T: Expression,
    U: Expression<Element = T::Element>,

    ensures
        r.condition() == b,
        r.then_branch() == t,
        r.else_branch() == e,
{
    Switch(b, t, e)
}

impl<B, T, U> Expression for Switch<B, T, U> where
    B: Expression,
    B::Element: SwitchOn<T::Element>,
    T: Expression,
    U: Expression<Element = T::Element>,
 {
    type Element = T::Element;

    open spec fn inv(&self) -> bool {
        &&& self.condition().inv()
        &&& self.then_branch().inv()
        &&& self.else_branch().inv()
        &&& self.condition().spec_length().spec_compatible(self.then_branch().spec_length())
        &&& self.condition().spec_length().spec_compatible(self.else_branch().spec_length())
        &&& self.then_branch().spec_length().spec_compatible(self.else_branch().spec_length())
    }

    open spec fn spec_length(&self) -> Length {
        self.condition().spec_length().spec_shorter(self.then_branch().spec_length()).spec_shorter(
            self.else_branch().spec_length(),
        )
    }

    open spec fn spec_at(&self, i: int) -> T::Element {
        self.condition().spec_at(i).chosen(
            self.then_branch().spec_at(i),
            self.else_branch().spec_at(i),
        )
    }

    open spec fn defined_at(&self, i: int) -> bool {
        &&& self.condition().defined_at(i)
        &&& self.then_branch().defined_at(i)
        &&& self.else_branch().defined_at(i)
    }

    proof fn lemma_unbounded_uniform(&self, i: int, j: int) {
        self.0.lemma_unbounded_uniform(i, j);
        self.1.lemma_unbounded_uniform(i, j);
        self.2.lemma_unbounded_uniform(i, j);
    }

    fn length(&self) -> (l: Length) {
        let len_b = self.0.length();
        let len_t = self.1.length();
        let len_e = self.2.length();
        len_b.shorter(len_t).shorter(len_e)
    }

    fn value_at(&self, i: usize) -> (v: T::Element) {
        let c = self.0.value_at(i);
        let t = self.1.value_at(i);
        let e = self.2.value_at(i);
        c.switch(t, e)
    }

    fn split(self, round_up: bool) -> (r: (Self, Self)) {
        let ghost k = self.spec_length().split_point(round_up);
        let ghost whole = self;
        let (b1, b2) = self.0.split(round_up);
        let (t1, t2) = self.1.split(round_up);
        let (e1, e2) = self.2.split(round_up);
        let hi = Switch(b2, t2, e2);
        proof {
            assert forall|i: int| hi.spec_length().has(i) implies hi.spec_at(i) == whole.spec_at(k
                + i) && hi.defined_at(i) == whole.defined_at(k + i) by {
                if whole.0.spec_length() is Infinite {
                    whole.0.lemma_unbounded_uniform(i, k + i);
                }
                if whole.1.spec_length() is Infinite {
                    whole.1.lemma_unbounded_uniform(i, k + i);
                }
                if whole.2.spec_length() is Infinite {
                    whole.2.lemma_unbounded_uniform(i, k + i);
                }
            }
        }
        (Switch(b1, t1, e1), hi)
    }

    fn split_at(self, n: usize) -> (r: (Self, Self)) {
        let (b1, b2) = self.0.split_at(n);
        let (t1, t2) = self.1.split_at(n);
        let (e1, e2) = self.2.split_at(n);
        (Switch(b1, t1, e1), Switch(b2, t2, e2))
    }
}

impl<B, T, U> Reversible for Switch<B, T, U> where
    B: Reversible,
    B::Element: SwitchOn<T::Element>,
    T: Reversible,
    U: Reversible<Element = T::Element>,
 {
    type Rev = Switch<B::Rev, T::Rev, U::Rev>;

    fn rev(self) -> (r: Switch<B::Rev, T::Rev, U::Rev>) {
        let ghost whole = self;
        let r = Switch(self.0.rev(), self.1.rev(), self.2.rev());
        proof {
            let n = whole.spec_length();
            assert forall|i: int| r.spec_length().has(i) implies r.spec_at(i) == whole.spec_at(
                n.mirror(i),
            ) && r.defined_at(i) == whole.defined_at(n.mirror(i)) by {
                if whole.0.spec_length() is Infinite {
                    whole.0.lemma_unbounded_uniform(i, n.mirror(i));
                }
                if whole.1.spec_length() is Infinite {
                    whole.1.lemma_unbounded_uniform(i, n.mirror(i));
                }
                if whole.2.spec_length() is Infinite {
                    whole.2.lemma_unbounded_uniform(i, n.mirror(i));
                }
            }
        }
        r
    }
}

} // verus!
