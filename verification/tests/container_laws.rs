use comonad::{duplicate, extend, extract, fmap, CoMonad};

/// The environment-aware driver: increment by `fmap` and by `extend` with a
/// re-extracting function, and check the two paths agree exactly.
#[test]
fn test_comonad() {
    let height: f64 = 15.0;
    let container = CoMonad { value: 14.0_f64, env: height };

    let added_one = container.fmap(|x: f64| x + 1.0);
    assert_eq!(added_one.value, 15.0);
    assert_eq!(added_one.env, 15.0);

    let add_one_pure = |inp: CoMonad<f64, f64>| inp.value + 1.0;

    let res_0 = add_one_pure(container.extend(add_one_pure));
    let res_1 = add_one_pure(extend(container, add_one_pure));
    println!("{res_0} == {res_1}");
    assert_eq!(res_0, res_1);
}

#[test]
fn functor_identity_scenario() {
    let c = CoMonad { value: 42_u32, env: 9_u32 };
    let mapped = fmap(c, |x: u32| x);
    assert_eq!(mapped.value, 42);
    assert_eq!(mapped.env, 9);

    let m = CoMonad { value: 42_u32, env: 9_u32 }.fmap(|x: u32| x);
    assert_eq!(m.value, 42);
    assert_eq!(m.env, 9);
}

#[test]
fn functor_composition_scenario() {
    let f = |x: u32| x + 3;
    let g = |x: u32| x * 2;

    let two_steps = fmap(fmap(CoMonad { value: 5_u32, env: 1_u32 }, f), g);
    let one_step = fmap(CoMonad { value: 5_u32, env: 1_u32 }, |x: u32| g(f(x)));
    assert_eq!(two_steps.value, 16);
    assert_eq!(two_steps.value, one_step.value);
    assert_eq!(two_steps.env, one_step.env);
}

#[test]
fn extend_with_extract_scenario() {
    let c = CoMonad { value: 7_u64, env: 30_u64 };
    let rebuilt = c.extend(|d: CoMonad<u64, u64>| extract(&d));
    assert_eq!(rebuilt.value, 7);
    assert_eq!(rebuilt.env, 30);

    let rebuilt_free = extend(c, |d: CoMonad<u64, u64>| d.value);
    assert_eq!(rebuilt_free.value, 7);
    assert_eq!(rebuilt_free.env, 30);
}

#[test]
fn extract_after_extend_scenario() {
    let c = CoMonad { value: 7_u64, env: 30_u64 };
    let f = |d: CoMonad<u64, u64>| d.value + d.env;
    let extended = c.extend(f);
    assert_eq!(extended.extract(), f(c));
}

#[test]
fn extend_associativity_scenario() {
    let f = |d: CoMonad<u64, u64>| d.value + d.env;
    let g = |d: CoMonad<u64, u64>| d.value * 2;

    let lhs = extend(extend(CoMonad { value: 4_u64, env: 10_u64 }, f), g);
    let rhs = extend(
        CoMonad { value: 4_u64, env: 10_u64 },
        |d: CoMonad<u64, u64>| g(extend(d, f)),
    );
    assert_eq!(lhs.value, 28);
    assert_eq!(lhs.value, rhs.value);
    assert_eq!(lhs.env, rhs.env);
}

#[test]
fn duplicate_nests_the_container() {
    let c = CoMonad { value: 3_u16, env: 8_u16 };
    let nested = duplicate(c);
    assert_eq!(nested.value.value, 3);
    assert_eq!(nested.value.env, 8);
    assert_eq!(nested.env, 8);

    let nested_method = CoMonad { value: 3_u16, env: 8_u16 }.duplicate();
    assert_eq!(nested_method.value.value, 3);
    assert_eq!(nested_method.value.env, 8);
    assert_eq!(nested_method.env, 8);
}

/// Both increment paths of the concrete driver scenario agree exactly on
/// f64: one addition on the same literals on each side.
#[test]
fn map_and_extend_agree_on_floats() {
    let container = CoMonad { value: 14.0_f64, env: 15.0_f64 };
    let mapped = container.fmap(|x: f64| x + 1.0);
    let extended = container.extend(|d: CoMonad<f64, f64>| extract(&d) + 1.0);
    assert_eq!(mapped.value, 15.0);
    assert_eq!(extended.extract(), 15.0);
    assert_eq!(mapped.value, extended.value);
    assert_eq!(mapped.env, extended.env);
}
