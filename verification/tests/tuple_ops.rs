use fntools::tuple::append::TupleAppend;
use fntools::tuple::as_ref::AsRefTuple;
use fntools::tuple::auto_tuple::AutoTuple;
use fntools::tuple::concat::TupleConcat;
use fntools::tuple::flip::FlipTuple;
use fntools::tuple::pop::TuplePop;
use fntools::tuple::push::TuplePush;
use fntools::tuple::take::TupleTake;

/// Converts `val` with [`AutoTuple`] and compares the result with
/// `rhs`.
fn helper<T, U>(val: T, rhs: U) -> bool
where
    T: AutoTuple<U>,
    U: PartialEq<U>,
{
    val.auto_tuple() == rhs
}

fn inner<T>(val: T) -> bool
where
    T: PartialEq<T> + AutoTuple<T> + Clone,
{
    helper(val.clone(), val)
}

#[test]
fn flip_tuple_test() {
    // arity 0
    assert_eq!(().flip(), ());

    // arity 1
    assert_eq!((5,).flip(), (5,));
    assert_eq!((true,).flip(), (true,));
    assert_eq!((false,).flip(), (false,));

    // arity 2
    assert_eq!((16, false).flip(), (false, 16));
    assert_eq!((true, 42).flip(), (42, true));

    // arity 3
    assert_eq!((10, "h", true).flip(), (true, "h", 10));
    assert_eq!((1, 2, 3).flip(), (3, 2, 1));
}

#[test]
fn flip_test() {
    // arity 0
    assert_eq!(().flip(), ());

    // arity 1
    assert_eq!((5,).flip(), (5,));
    assert_eq!((true,).flip(), (true,));
    assert_eq!((false,).flip(), (false,));

    // arity 2
    assert_eq!((16, false).flip(), (false, 16));
    assert_eq!((true, 42).flip(), (42, true));

    // arity 3
    assert_eq!((10, "h", true).flip(), (true, "h", 10));
    assert_eq!((1, 2, 3).flip(), (3, 2, 1));

    // arity 12
    assert_eq!(
        (1, 2, 3, 4, 5, 6, 7, 8, 9, 10, 11, 12).flip(),
        (12, 11, 10, 9, 8, 7, 6, 5, 4, 3, 2, 1)
    );
}

#[test]
fn flip_is_involutive() {
    let tuple = (17, (), false, "OwO");
    assert_eq!(tuple.flip().flip(), tuple);
    assert_eq!(().flip().flip(), ());
    assert_eq!((1,).flip().flip(), (1,));
}

#[test]
fn to_arity1_tuple() {
    assert!(helper(1, (1,)));
    assert!(helper((1,), ((1,),)));
    assert!(helper((1, 0), ((1, 0),)));
}

#[test]
fn to_self() {
    assert!(inner(()));

    assert!(inner((1,)));
    assert!(inner((1, 2)));
    assert!(inner((1, 2, 3)));
    assert!(inner((1, 2, 3, 4)));

    assert!(inner(((),)));
    assert!(inner(((), ())));
}

#[test]
fn take_from_front() {
    assert_eq!((999,).take(), (999, ()));
    assert_eq!((47, "str", 14usize).take(), (47, ("str", 14usize)));
}

#[test]
fn append_to_front() {
    assert_eq!(().append(1), (1,));
    assert_eq!((999,).append("str"), ("str", 999));
    assert_eq!((47, "str", 14usize).append(true), (true, 47, "str", 14usize));
}

#[test]
fn push_to_back() {
    assert_eq!(().push(1), (1,));
    assert_eq!((999,).push("str"), (999, "str"));
    assert_eq!((47, "str", 14usize).push(true), (47, "str", 14usize, true));
}

#[test]
fn pop_from_back() {
    assert_eq!((999,).pop(), ((), 999));
    assert_eq!((47, "str", 14usize).pop(), ((47, "str"), 14usize));
}

#[test]
fn push_then_pop_returns_tuple_and_element() {
    let t = (1, "x", true);
    assert_eq!(t.push(7).pop(), (t, 7));
    assert_eq!(().push(7).pop(), ((), 7));
}

#[test]
fn append_then_take_returns_element_and_tuple() {
    let t = (1, "x", true);
    assert_eq!(t.append(7).take(), (7, t));
    assert_eq!(().append(7).take(), (7, ()));
}

#[test]
fn concat_tuples() {
    assert_eq!((1, false).concat(("hell", 666)), (1, false, "hell", 666));
    assert_eq!((0,).concat(((),)), (0, ()));
}

#[test]
fn concat_empty_is_identity() {
    assert_eq!((17, 18).concat(()), (17, 18));
    assert_eq!(().concat(("he", "eh")), ("he", "eh"));
    assert_eq!(().concat(()), ());
}

#[test]
fn concat_up_to_arity_12() {
    assert_eq!(
        (0, 1, 2, 3, 4, 5, 6, 7, 8, 9).concat((10, 11)),
        (0, 1, 2, 3, 4, 5, 6, 7, 8, 9, 10, 11)
    );
    assert_eq!(
        (0, 1, 2, 3, 4, 5).concat((6, 7, 8, 9, 10, 11)),
        (0, 1, 2, 3, 4, 5, 6, 7, 8, 9, 10, 11)
    );
    assert_eq!(
        (0, 1).concat((2, 3, 4, 5, 6, 7, 8, 9, 10, 11)),
        (0, 1, 2, 3, 4, 5, 6, 7, 8, 9, 10, 11)
    );
}

#[test]
fn tuple_of_references() {
    let t = (1, true, "s");
    let r = t.as_ref();
    assert_eq!(*r.0, 1);
    assert_eq!(*r.1, true);
    assert_eq!(*r.2, "s");
}
