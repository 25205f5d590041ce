use fntools::constant::{constant, constant_clone, constant_clone_ref, constant_copy};
use fntools::flip::{flip, flip_mut, flip_once};
use fntools::flip::flip_args::{flip_args, flip_args_mut, flip_args_once};
use fntools::flip::flip_full::{flip_full, flip_full_mut, flip_full_once};
use fntools::flip::flip_output::{flip_output, flip_output_mut, flip_output_once};
use fntools::unstable::curry::Curry;
use fntools::unstable::ext::FnExt;
use fntools::value::{Also, Apply};
use fntools::{chain, chain_mut, chain_once};
use fntools::{compose, compose_mut, compose_once};
use fntools::{product, product_mut, product_once};
use fntools::{unit, unit_mut, unit_once};

#[test]
fn chain_runs_first_then_second() {
    let add_two = |a: i32| a + 2;
    let add_three = |a: i32| a + 3;
    let add_five = chain(add_two, add_three);
    assert_eq!(add_five(4), 9);
}

#[test]
fn chain_order_of_conversions() {
    let to_16 = |i: i8| i16::from(i);
    let to_32 = |i: i16| i32::from(i);
    let to_64 = |i: i32| i64::from(i);
    let i8_to_i64 = chain(to_16, chain(to_32, to_64));
    assert_eq!(i8_to_i64(8i8), 8i64);
}

#[test]
fn compose_runs_second_then_first() {
    let add_two = |a: i32| a + 2;
    let add_three = |a: i32| a + 3;
    let add_five = compose(add_two, add_three);
    assert_eq!(add_five(4), 9);
}

#[test]
fn chain_and_compose_differ_in_order() {
    let f = |a: i32| a * 2;
    let g = |a: i32| a + 1;
    let chained = chain(f, g);
    let composed = compose(f, g);
    assert_eq!(chained(3), 7);
    assert_eq!(composed(3), 8);
}

#[test]
fn chain_once_consumes() {
    let s = String::from("a");
    let extend = move |t: String| {
        let mut o = t;
        o.push_str(&s);
        o
    };
    let upper = |t: String| t.to_uppercase();
    let both = chain_once(extend, upper);
    assert_eq!(both(String::from("b")), "BA");
}

#[test]
fn compose_once_consumes() {
    let s = String::from("a");
    let extend = move |t: String| {
        let mut o = t;
        o.push_str(&s);
        o
    };
    let upper = |t: String| t.to_uppercase();
    let both = compose_once(upper, extend);
    assert_eq!(both(String::from("b")), "BA");
}

#[test]
fn chain_mut_and_compose_mut_agree() {
    let f = |a: i32| a * 2;
    let g = |a: i32| a + 1;
    assert_eq!(chain_mut(f, g)(3), 7);
    assert_eq!(compose_mut(f, g)(3), 8);
}

#[test]
fn product_pairs_results() {
    let h = product(|a: i32| a + 1, |x: i32| x * 2);
    assert_eq!(h(1, 3), (2, 6));
}

#[test]
fn product_once_pairs_results() {
    let s = String::from("hi");
    let h = product_once(move |a: i32| format!("{}{}", s, a), |x: i32| x * 2);
    assert_eq!(h(1, 3), (String::from("hi1"), 6));
}

#[test]
fn unit_discards_output() {
    let fun = unit(|a: i32| -> i32 { a });
    assert_eq!(fun(18), ());
}

#[test]
fn unit_once_discards_output() {
    let s = String::from("x");
    let fun = unit_once(move |a: i32| format!("{}{}", s, a));
    assert_eq!(fun(18), ());
}

#[test]
fn constant_returns_value_once() {
    let fun = constant(String::from("Hi"));
    assert_eq!(fun(), "Hi");
}

#[test]
fn constant_clone_returns_value_repeatedly() {
    let fun = constant_clone(String::from("Hi"));
    assert_eq!(fun(), "Hi");
    assert_eq!(fun(), "Hi");
    assert_eq!(fun(), "Hi");
}

#[test]
fn constant_copy_returns_value_repeatedly() {
    let fun = constant_copy(42);
    assert_eq!(fun(), 42);
    assert_eq!(fun(), 42);
}

#[test]
fn constant_clone_ref_leaves_value_borrowed() {
    let string = String::from("Hi");
    let fun = constant_clone_ref(&string);
    assert_eq!(fun(), "Hi");
    assert_eq!(fun(), "Hi");
    assert_eq!(string, "Hi");
}

#[test]
fn flip_swaps_arguments() {
    let fun = |a: &str, b: i32| format!("{}{}", a, b);
    let fun = flip(fun);
    assert_eq!(fun(17, "hello, "), "hello, 17");
}

#[test]
fn flip_args_swaps_arguments() {
    let fun = |a: &str, b: i32| format!("{}{}", a, b);
    let fun = flip_args(fun);
    assert_eq!(fun(17, "hello, "), "hello, 17");
}

#[test]
fn flip_full_swaps_arguments_and_output() {
    let fun = |a: i32, b: i32| (a + 1, b * 2);
    let fun = flip_full(fun);
    assert_eq!(fun(3, 1), (6, 2));
}

#[test]
fn flip_output_swaps_output() {
    let fun = |a: i32| (a, a + 1);
    let fun = flip_output(fun);
    assert_eq!(fun(4), (5, 4));
}

#[test]
fn apply_runs_function_on_value() {
    let val = (1, 4).apply(|(a, b)| a + b).apply(|it| it * it);
    assert_eq!(val, 25);
}

#[test]
fn apply_ref_borrows() {
    let v = 5i32;
    let r = v.apply_ref(|x: &i32| *x + 1);
    assert_eq!(r, 6);
    assert_eq!(v, 5);
}

#[test]
fn apply_mut_mutates() {
    let mut v = 5i32;
    let r = v.apply_mut(|x: &mut i32| {
        *x = 7;
        1
    });
    assert_eq!(r, 1);
    assert_eq!(v, 7);
}

#[test]
fn apply_deref_reaches_target() {
    let v = vec![13748, 3738, 10003, 17];
    let len = v.apply_deref(<[i32]>::len);
    assert_eq!(len, 4);
}

#[test]
fn also_deref_keeps_value() {
    let mut out = None;
    let val = vec![2, 17, 1, 3, 5].also_deref(|s: &[i32]| out = Some(s.len()));
    assert_eq!(out, Some(5));
    assert_eq!(val, [2, 17, 1, 3, 5]);
}

#[test]
fn also_keeps_value() {
    let val = 8.also(|it: &i32| assert_eq!(*it, 8));
    assert_eq!(val, 8);
}

#[test]
fn also_mut_updates_value() {
    let val = 8.also_mut(|it: &mut i32| *it *= 2);
    assert_eq!(val, 16);
}

#[test]
fn fn_ext_method_syntax() {
    let add_two = |a: i32| a + 2;
    let add_three = |a: i32| a + 3;
    assert_eq!(add_two.chain(add_three).call(4), 9);
    assert_eq!(add_two.compose(add_three).call(4), 9);
    let sub = |a: i32, b: i32| a - b;
    assert_eq!(sub.supply(10).call_once(3), 7);
    let flipped = (|a: i32, b: i32| a - b).flip();
    assert_eq!(flipped.call_once(3, 10), 7);
    let curried: Curry<(), _, (i32, i32)> = (|a: i32, b: i32| a - b).curry();
    assert_eq!(curried.step(10).call_once(3), 7);
}

#[test]
fn flip_once_and_mut_swap_arguments() {
    let s = String::from("!");
    let f = flip_once(move |a: &str, b: i32| format!("{}{}{}", a, b, s));
    assert_eq!(f(1, "n"), "n1!");
    let g = flip_mut(|a: i32, b: i32| a - b);
    assert_eq!(g(3, 10), 7);
    let g2 = flip_args_mut(|a: i32, b: i32| a - b);
    assert_eq!(g2(3, 10), 7);
    let s2 = String::from("?");
    let h = flip_args_once(move |a: &str, b: i32| format!("{}{}{}", a, b, s2));
    assert_eq!(h(2, "m"), "m2?");
}

#[test]
fn flip_full_and_output_once_and_mut() {
    let f1 = flip_full_once(|a: i32, b: i32| (a + 1, b * 2));
    assert_eq!(f1(3, 1), (6, 2));
    let f2 = flip_full_mut(|a: i32, b: i32| (a + 1, b * 2));
    assert_eq!(f2(3, 1), (6, 2));
    let f3 = flip_output_once(|a: i32| (a, a + 1));
    assert_eq!(f3(4), (5, 4));
    let f4 = flip_output_mut(|a: i32| (a, a + 1));
    assert_eq!(f4(4), (5, 4));
}

#[test]
fn product_mut_and_unit_mut() {
    let h = product_mut(|a: i32| a + 1, |x: i32| x * 2);
    assert_eq!(h(1, 3), (2, 6));
    let u = unit_mut(|a: i32| a + 1);
    assert_eq!(u(3), ());
}
