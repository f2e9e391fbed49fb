use parry::iterators::{Binary, BinOp, Minus, Plus, Times, Tuple, UnOp, Unary, Bang, Divide};
use parry::reduce::{Reduce, Sum, Write};
use parry::{
    evaluate, get_len, make_map, make_switch, make_zip, Constant, Expression, ExpressionExt,
    Length, Reversible, SwitchOn, E,
};

#[test]
fn length_compatible() {
    assert!(Length::Finite(3).compatible(Length::Finite(3)));
    assert!(!Length::Finite(3).compatible(Length::Finite(4)));
    assert!(Length::Finite(3).compatible(Length::Infinite));
    assert!(Length::Infinite.compatible(Length::Finite(7)));
    assert!(Length::Infinite.compatible(Length::Infinite));
}

#[test]
fn length_shorter() {
    assert_eq!(Length::Finite(3).shorter(Length::Finite(5)), Length::Finite(3));
    assert_eq!(Length::Finite(5).shorter(Length::Finite(3)), Length::Finite(3));
    assert_eq!(Length::Finite(5).shorter(Length::Infinite), Length::Finite(5));
    assert_eq!(Length::Infinite.shorter(Length::Finite(2)), Length::Finite(2));
    assert_eq!(Length::Infinite.shorter(Length::Infinite), Length::Infinite);
}

#[test]
fn common_length() {
    assert_eq!(get_len(Length::Finite(4), Length::Finite(4)), 4);
    assert_eq!(get_len(Length::Finite(4), Length::Infinite), 4);
    assert_eq!(get_len(Length::Infinite, Length::Finite(9)), 9);
    assert_eq!(get_len(Length::Finite(2), Length::Finite(6)), 2);
}

#[test]
fn slice_split_halves() {
    let a = &[1, 2, 3, 4, 5] as &[i32];
    let (lo, hi) = Expression::split(a, false);
    assert_eq!(lo.values(), vec![1, 2]);
    assert_eq!(hi.values(), vec![3, 4, 5]);
    let (lo, hi) = Expression::split(a, true);
    assert_eq!(lo.values(), vec![1, 2, 3]);
    assert_eq!(hi.values(), vec![4, 5]);
}

#[test]
fn split_at_cuts() {
    let a = &[1, 2, 3, 4, 5] as &[i32];
    let (lo, hi) = (E(a) + a).split_at(1);
    assert_eq!(lo.values(), vec![2]);
    assert_eq!(hi.values(), vec![4, 6, 8, 10]);
    let (lo, hi) = E(a).split_at(5);
    assert_eq!(lo.values(), vec![1, 2, 3, 4, 5]);
    assert_eq!(hi.length(), Length::Finite(0));
}

#[test]
fn reversed_split_halves() {
    let a = &[1, 2, 3, 4, 5] as &[i32];
    let r = a.rev();
    assert_eq!(r.values(), vec![5, 4, 3, 2, 1]);
    let (lo, hi) = r.split(false);
    assert_eq!(lo.values(), vec![5, 4]);
    assert_eq!(hi.values(), vec![3, 2, 1]);
    let (lo, hi) = r.split(true);
    assert_eq!(lo.values(), vec![5, 4, 3]);
    assert_eq!(hi.values(), vec![2, 1]);
    let (lo, hi) = a.rev().split_at(2);
    assert_eq!(lo.values(), vec![5, 4]);
    assert_eq!(hi.values(), vec![3, 2, 1]);
}

#[test]
fn reversing_twice_restores() {
    let a = &[3i64, 1, 4, 1, 5, 9] as &[i64];
    let b = &[2i64, 7, 1, 8, 2, 8] as &[i64];
    let e = E(a) * b;
    assert_eq!(e.rev().rev().values(), e.values());
    assert_eq!(e.rev().values(), vec![72, 10, 8, 4, 7, 6]);
}

#[test]
fn halves_join_to_whole() {
    let a = (0..101).collect::<Vec<i32>>();
    let e = E(&a[..]) - Constant(1);
    let (lo, hi) = e.split(true);
    let mut joined = lo.values();
    joined.extend(hi.values());
    assert_eq!(joined, e.values());
    assert_eq!(lo.length(), Length::Finite(51));
}

#[test]
fn constant_is_unbounded() {
    let c = Constant(7u8);
    assert_eq!(c.length(), Length::Infinite);
    assert_eq!(c.value_at(1000), 7);
    let (lo, hi) = c.split(true);
    assert_eq!(lo.value_at(3), 7);
    assert_eq!(hi.length(), Length::Infinite);
    assert_eq!(c.rev().value_at(0), 7);
}

#[test]
fn mixed_lengths_take_the_finite_one() {
    let a = &[1, 2, 3] as &[i32];
    let e = Constant(100) - a;
    assert_eq!(e.length(), Length::Finite(3));
    assert_eq!(e.values(), vec![99, 98, 97]);
    assert_eq!(e.rev().values(), vec![97, 98, 99]);
}

#[test]
fn element_operators() {
    assert_eq!(Plus.operate(2i32, 3i32), 5);
    assert_eq!(BinOp::<i32, i32>::operate(&Minus, 2i32, 3i32), -1);
    assert_eq!(UnOp::<i32>::operate(&Minus, 4i32), -4);
    assert_eq!(Times.operate(6u8, 7u8), 42);
    assert_eq!(Divide.operate(7i64, 2i64), 3);
    assert_eq!(Bang.operate(true), false);
    assert_eq!(Tuple.operate(1u8, 'x'), (1, 'x'));
    assert_eq!(true.switch(1, 2), 1);
    assert_eq!(false.switch(1, 2), 2);
}

#[test]
fn constructed_nodes() {
    let a = &[1, 2, 3] as &[i32];
    let b = &[10, 20, 30] as &[i32];
    assert_eq!(Binary::new(Times, a, b).values(), vec![10, 40, 90]);
    assert_eq!(Unary::new(Minus, a).values(), vec![-1, -2, -3]);
    assert_eq!(make_zip(a, Constant(0u8)).values(), vec![(1, 0), (2, 0), (3, 0)]);
    let double = |x: i32| 2 * x;
    assert_eq!(make_map(b, double).values(), vec![20, 40, 60]);
    let cond = &[false, true, false] as &[bool];
    assert_eq!(make_switch(cond, a, b).values(), vec![10, 2, 30]);
    assert_eq!(E(cond).switch(Constant(1), b).values(), vec![10, 1, 30]);
}

#[test]
fn parallel_sum_matches_sequential() {
    let a = (0..200_000_i64).collect::<Vec<_>>();
    let total: i64 = a.iter().sum();
    assert_eq!(E(&a[..]).sum(), total);
    assert_eq!(evaluate(&a[..], Sum), total);
    let b = (0..50_000_u32).map(|x| x % 7).collect::<Vec<_>>();
    let total_b: u32 = b.iter().sum();
    assert_eq!((E(&b[..]) + Constant(1u32)).sum(), total_b + 50_000);
}

#[test]
fn small_sums() {
    let a = &[-5i8, 100, 27] as &[i8];
    assert_eq!(E(a).sum(), 122);
    let empty: &[u64] = &[];
    assert_eq!(E(empty).sum(), 0);
    let one = &[usize::MAX] as &[usize];
    assert_eq!(E(one).sum(), usize::MAX);
}

#[test]
fn parallel_write_of_constant() {
    let mut out = vec![0u16; 100_000];
    Constant(3u16).write(&mut out);
    assert!(out.iter().all(|&x| x == 3));
    let a = (0..100_000_u32).collect::<Vec<_>>();
    let mut out2 = vec![0u32; 100_000];
    (E(&a[..]) * Constant(2u32)).rev().write(&mut out2);
    assert_eq!(out2[0], 199_998);
    assert_eq!(out2[99_999], 0);
}

#[test]
fn write_through_reduction() {
    let a = &[1, 2, 3, 4] as &[i32];
    let mut out = vec![0; 4];
    let w = Write(&mut out[..]);
    assert_eq!(w.expected_length(), Length::Finite(4));
    evaluate(E(a) + a, w);
    assert_eq!(out, vec![2, 4, 6, 8]);
}

#[test]
fn reduction_split_lengths() {
    let mut out = vec![0; 5];
    let (lo, hi, _) = Write(&mut out[..]).split();
    assert_eq!(lo.expected_length(), Length::Finite(2));
    assert_eq!(hi.expected_length(), Length::Finite(3));
    let (s1, s2, _) = Reduce::<i32>::split(Sum);
    assert_eq!(Reduce::<i32>::expected_length(&s1), Length::Infinite);
    assert_eq!(Reduce::<i32>::expected_length(&s2), Length::Infinite);
}

#[test]
fn comparison_of_mixed_lengths() {
    let a = &[1, 5, 3] as &[i32];
    assert_eq!(E(a).gt(Constant(2)).values(), vec![false, true, true]);
    assert_eq!(E(a).eq(Constant(3)).rev().values(), vec![true, false, false]);
}

#[test]
fn shorter_expression_writes_a_prefix() {
    let a = &[1, 2] as &[i32];
    let mut out = vec![7, 7, 7, 7];
    Write(&mut out[..]).reduce(E(a) * Constant(3));
    assert_eq!(out, vec![3, 6, 7, 7]);
    let mut out2 = vec![0, 0];
    Write(&mut out2[..]).reduce(Constant(5));
    assert_eq!(out2, vec![5, 5]);
}

#[test]
fn evaluate_writes_in_parallel() {
    let a = (0..100_000_i64).collect::<Vec<_>>();
    let mut out = vec![0i64; 100_000];
    evaluate(E(&a[..]) + a.rev(), Write(&mut out[..]));
    assert!(out.iter().all(|&x| x == 99_999));
    let mut small = vec![0i32; 3];
    evaluate(&[1, 2, 3][..], Write(&mut small[..]));
    assert_eq!(small, vec![1, 2, 3]);
}
