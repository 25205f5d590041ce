use fntools::unstable::chain::{chain, FnExtChain};
use fntools::unstable::compose::{compose, FnExtCompose};
use fntools::unstable::curry::Curry;
use fntools::unstable::flip::flip;
use fntools::unstable::supply::{supply, Supply};
use fntools::unstable::unit::unit;
use fntools::unstable::untuple::untuple;

struct UnCopy;

#[test]
fn mut_test() {
    let mut i: i32 = 0;
    let inc = |()| {
        i += 1;
        i
    };
    let print = |a: i32| println!("{}", a);
    let mut fun = chain(print, inc);
    fun.call_mut(1);
    fun.call_mut(2);
}

#[test]
fn one_fn() {
    let fun = |a: i32| a * 2;
    let cur: Curry<(), _, (i32,)> = Curry::new(fun);
    let val = cur.call_once(4);

    assert_eq!(val, 8);
}

#[test]
fn one_fn_once() {
    let uncopy = UnCopy;

    let fun = move |a: i32| {
        let _ = &uncopy;
        a * 2
    };
    let cur: Curry<(), _, (i32,)> = Curry::new(fun);
    let val = cur.call_once(4);

    assert_eq!(val, 8);
}

#[test]
fn one_fn_mut() {
    let mut var = false;
    let fun = |a: i32| {
        var = true;
        a * 2
    };
    let mut cur: Curry<(), _, (i32,)> = Curry::new(fun);
    let val = cur.call_mut(4);

    assert_eq!(val, 8);
    drop(cur);
    assert!(var);
}

#[test]
fn many_fn() {
    let fun = |a: i32, b: String, c: &str, d: i8| format!("{}{}{}{}", a, b, c, d);
    let fun: Curry<(), _, (i32, String, &str, i8)> = Curry::new(fun);
    let val = fun.step(12).step(String::from("O_o")).step("hell(o)").call_once(4);

    assert_eq!(val, "12O_ohell(o)4");
}

#[test]
fn curry_zero_arguments_calls_at_once() {
    let f = || 41;
    let cur: Curry<(), _, ()> = Curry::new(f);
    assert_eq!(cur.call(), 41);
    assert_eq!(cur.call_once(), 41);
}

#[test]
fn curry_matches_direct_call() {
    let f = |a: i32, b: i32, c: i32| (a - b) * c;
    let cur: Curry<(), _, (i32, i32, i32)> = Curry::new(f);
    let partial = cur.step(7).step(2);
    assert_eq!(partial.call_once(3), f(7, 2, 3));
}

#[test]
fn chain_value_runs_in_order() {
    let add_two = |a: i32| a + 2;
    let add_three = |a: i32| a + 3;
    let add_five = chain(add_two, add_three);
    assert_eq!(add_five.call(4), 9);
    assert_eq!(add_five.call_once(4), 9);
}

#[test]
fn chain_extension_builds_chain() {
    let add_two = |a: i32| a + 2;
    let add_three = |a: i32| a + 3;
    let add_five = add_two.chain(add_three);
    assert_eq!(add_five.call(4), 9);
}

#[test]
fn compose_extension_builds_compose() {
    let h = (|a: i32| a * 2).compose(|a: i32| a + 1);
    assert_eq!(h.call(3), 8);
}

#[test]
fn compose_value_runs_in_reverse_order() {
    let f = |a: i32| a * 2;
    let g = |a: i32| a + 1;
    let h = compose(f, g);
    assert_eq!(h.call(3), 8);
    assert_eq!(h.call_once(3), 8);
}

#[test]
fn chain_and_compose_values_into_inner() {
    let f = |a: i32| a * 2;
    let g = |a: i32| a + 1;
    let (cf, cg) = chain(f, g).into_inner();
    assert_eq!(cf(1), 2);
    assert_eq!(cg(1), 2);
    let (df, dg) = compose(f, g).into_inner();
    assert_eq!(df(3), 6);
    assert_eq!(dg(3), 4);
}

#[test]
fn supply_fixes_first_argument() {
    let sub = |a: i32, b: i32| a - b;
    let from_five = supply(5, sub);
    assert_eq!(from_five.call_once(3), 5 - 3);
}

#[test]
fn supply_call_is_repeatable() {
    let mut hits: i32 = 0;
    let sub = |a: i32, b: i32| a - b;
    let from_ten = supply(10, sub);
    assert_eq!(from_ten.call(4), 6);
    assert_eq!(from_ten.call(1), 9);
    let mut count = supply(100, |a: i32, b: i32| {
        hits += 1;
        a - b
    });
    assert_eq!(count.call_mut(1), 99);
    assert_eq!(count.call_mut(2), 98);
    drop(count);
    assert_eq!(hits, 2);
}

#[test]
fn curry_call_is_repeatable() {
    let f = |a: i32, b: i32, c: i32| (a - b) * c;
    let cur: Curry<(), _, (i32, i32, i32)> = Curry::new(f);
    let partial = cur.step(7).step(2);
    assert_eq!(partial.call(3), 15);
    assert_eq!(partial.call(4), 20);
}

#[test]
fn supply_leaves_remaining_arguments() {
    let fun = |a: i32, b: usize, c: String| format!("a: {}, b: {}, c: {:?}", a, b, c);
    let fun = Supply::new(fun, 8);
    assert_eq!(fun.call_once(16, String::from("AAA")), "a: 8, b: 16, c: \"AAA\"");
}

#[test]
fn combinator_values_clone() {
    let s = supply(5, |a: i32, b: i32| a - b);
    let t = s.clone();
    assert_eq!(s.call_once(3), 2);
    assert_eq!(t.call_once(1), 4);
    let f = flip(|a: i32, b: i32| a - b);
    let g = f.clone();
    assert_eq!(f.call_once(3, 10), 7);
    assert_eq!(g.call_once(0, 10), 10);
}

#[test]
fn flip_value_reverses_arguments() {
    let fun = |a: &str, b: i32, c: char| format!("{}{}{}", a, b, c);
    let fun = flip(fun);
    assert_eq!(fun.call_once('c', 17, "hello, "), "hello, 17c");
}

#[test]
fn flip_value_repeatable() {
    let fun = |a: i32, b: i32| a - b;
    let fun = flip(fun);
    assert_eq!(fun.call(1, 10), 9);
    assert_eq!(fun.call(2, 10), 8);
}

#[test]
fn unit_value_discards_output() {
    let add = unit(|a: i32, b: i32| a + b);
    assert_eq!(add.call_once(1, 2), ());
}

#[test]
fn untuple_value_takes_argument_tuple() {
    let fun = untuple(|a: i32, b: i32| a + b);
    assert_eq!(fun.call((1, 2)), 3);
    assert_eq!(fun.call_once((3, 4)), 7);
}

#[test]
fn unit_value_call_and_call_mut() {
    let u = unit(|a: i32| a + 1);
    assert_eq!(u.call(1), ());
    let mut hits: i32 = 0;
    let mut v = unit(|a: i32| {
        hits += a;
        a
    });
    v.call_mut(2);
    v.call_mut(3);
    drop(v);
    assert_eq!(hits, 5);
}

#[test]
fn untuple_value_call_mut_and_arity_zero() {
    let mut total: i32 = 0;
    let mut f = untuple(|a: i32, b: i32| total += a + b);
    f.call_mut((1, 2));
    f.call_mut((3, 4));
    drop(f);
    assert_eq!(total, 10);
    assert_eq!(untuple(|| 5).call_once(()), 5);
}

#[test]
fn flip_value_call_mut() {
    let mut count: i32 = 0;
    let mut f = flip(|a: i32, b: i32| {
        count += 1;
        a - b
    });
    assert_eq!(f.call_mut(3, 10), 7);
    assert_eq!(f.call_mut(4, 10), 6);
    drop(f);
    assert_eq!(count, 2);
}

#[test]
fn compose_value_call_mut() {
    let mut n: i32 = 0;
    let mut h = compose(
        |b: i32| b * 2,
        |a: i32| {
            n += 1;
            a + 1
        },
    );
    assert_eq!(h.call_mut(3), 8);
    drop(h);
    assert_eq!(n, 1);
}
