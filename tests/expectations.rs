use mockall::{CallError, Expectation, Expectations, Key, RespondOnce, Rfunc, Single};
use std::sync::atomic::{AtomicUsize, Ordering};
use std::sync::Arc;

#[test]
fn identity_is_stable() {
    let a = Key::new::<(i32, i32), i32>("add");
    let b = Key::new::<(i32, i32), i32>("add");
    assert_eq!(a, b);
}

#[test]
fn identity_changes_with_name_or_types() {
    let base = Key::new::<(i32, i32), i32>("add");
    assert_ne!(base, Key::new::<(i32, i32), i32>("sub"));
    assert_ne!(base, Key::new::<(i64, i32), i32>("add"));
    assert_ne!(base, Key::new::<(i32, i32), u32>("add"));
}

#[test]
fn scenario_add_reusable() {
    let mut e = Expectations::default();
    e.expect::<(i32, i32), i32>("add")
        .returning(|(a, b)| a + b)
        .commit(&mut e);
    assert_eq!(e.called::<(i32, i32), i32>("add", (2, 3)), Ok(5));
    assert_eq!(e.called::<(i32, i32), i32>("add", (2, 3)), Ok(5));
}

#[test]
fn scenario_add_once() {
    let mut e = Expectations::default();
    e.expect::<(i32, i32), i32>("add")
        .return_once(|(a, b)| a + b)
        .commit(&mut e);
    assert_eq!(e.called::<(i32, i32), i32>("add", (2, 3)), Ok(5));
    assert_eq!(
        e.called::<(i32, i32), i32>("add", (2, 3)),
        Err(CallError::Exhausted)
    );
}

#[test]
fn reusable_gives_each_result_in_order() {
    let mut e = Expectations::default();
    e.expect::<(u32,), u32>("square")
        .returning(|(x,)| x * x)
        .commit(&mut e);
    let args: Vec<u32> = vec![0, 1, 2, 7, 12];
    let outs: Vec<Result<u32, CallError>> = args
        .iter()
        .map(|a| e.called::<(u32,), u32>("square", (*a,)))
        .collect();
    assert_eq!(outs, vec![Ok(0), Ok(1), Ok(4), Ok(49), Ok(144)]);
}

#[test]
fn reusable_with_no_calls_is_still_registered() {
    let mut e = Expectations::default();
    e.expect::<(), u8>("nothing").returning(|()| 9).commit(&mut e);
    assert_eq!(e.called::<(), u8>("nothing", ()), Ok(9));
}

#[test]
fn single_use_fails_on_every_later_call() {
    let mut e = Expectations::default();
    e.expect::<(i32,), i32>("neg")
        .return_once(|(x,)| -x)
        .commit(&mut e);
    assert_eq!(e.called::<(i32,), i32>("neg", (4,)), Ok(-4));
    for x in [4, 5, -1, 0] {
        assert_eq!(
            e.called::<(i32,), i32>("neg", (x,)),
            Err(CallError::Exhausted)
        );
    }
}

#[test]
fn registration_overwrite_keeps_the_second() {
    let mut e = Expectations::default();
    e.expect::<(), i32>("value").returning(|()| 1).commit(&mut e);
    e.expect::<(), i32>("value").returning(|()| 2).commit(&mut e);
    assert_eq!(e.called::<(), i32>("value", ()), Ok(2));
    assert_eq!(e.called::<(), i32>("value", ()), Ok(2));
}

#[test]
fn registration_overwrite_replaces_a_spent_single_use() {
    let mut e = Expectations::default();
    e.expect::<(), i32>("value").return_once(|()| 1).commit(&mut e);
    assert_eq!(e.called::<(), i32>("value", ()), Ok(1));
    e.expect::<(), i32>("value").returning(|()| 3).commit(&mut e);
    assert_eq!(e.called::<(), i32>("value", ()), Ok(3));
}

#[test]
fn last_configuration_on_a_builder_wins() {
    let mut e = Expectations::default();
    e.expect::<(), i32>("value")
        .returning(|()| 1)
        .return_once(|()| 2)
        .commit(&mut e);
    assert_eq!(e.called::<(), i32>("value", ()), Ok(2));
    assert_eq!(e.called::<(), i32>("value", ()), Err(CallError::Exhausted));
}

#[test]
fn unregistered_lookup_fails() {
    let e = Expectations::default();
    assert_eq!(
        e.called::<(i32, i32), i32>("add", (2, 3)),
        Err(CallError::NoMatchingExpectation)
    );
}

#[test]
fn lookup_with_other_types_or_name_fails() {
    let mut e = Expectations::default();
    e.expect::<(i32, i32), i32>("add")
        .returning(|(a, b)| a + b)
        .commit(&mut e);
    assert_eq!(
        e.called::<(i64, i64), i64>("add", (2, 3)),
        Err(CallError::NoMatchingExpectation)
    );
    assert_eq!(
        e.called::<(i32, i32), u32>("add", (2, 3)),
        Err(CallError::NoMatchingExpectation)
    );
    assert_eq!(
        e.called::<(i32, i32), i32>("sub", (2, 3)),
        Err(CallError::NoMatchingExpectation)
    );
}

#[test]
fn uncommitted_builder_registers_nothing() {
    let e = Expectations::default();
    let b = e.expect::<(), i32>("value").returning(|()| 1);
    drop(b);
    assert_eq!(
        e.called::<(), i32>("value", ()),
        Err(CallError::NoMatchingExpectation)
    );
}

#[test]
fn unconfigured_expectation_has_no_default() {
    let mut e = Expectations::default();
    e.expect::<(), i32>("value").commit(&mut e);
    assert_eq!(e.called::<(), i32>("value", ()), Err(CallError::NoDefault));
}

#[test]
fn shared_counter_gives_each_value_once() {
    let mut e = Expectations::default();
    let counter = Arc::new(AtomicUsize::new(0));
    let c = counter.clone();
    e.expect::<(), usize>("next")
        .returning(move |()| c.fetch_add(1, Ordering::SeqCst) + 1)
        .commit(&mut e);
    let k: usize = 16;
    let mut seen: Vec<usize> = (0..k)
        .map(|_| e.called::<(), usize>("next", ()).unwrap())
        .collect();
    seen.sort();
    assert_eq!(seen, (1..=k).collect::<Vec<usize>>());
    assert_eq!(counter.load(Ordering::SeqCst), k);
}

#[test]
fn strategy_states_step_as_described() {
    let mut d: Rfunc<(i32,), i32> = Rfunc::Default;
    assert_eq!(d.call_mut((1,)), Err(CallError::NoDefault));
    assert!(matches!(d, Rfunc::Default));

    let mut x: Rfunc<(i32,), i32> = Rfunc::Expired;
    assert_eq!(x.call_mut((1,)), Err(CallError::Exhausted));
    assert!(matches!(x, Rfunc::Expired));

    let mut m: Rfunc<(i32,), i32> = Rfunc::Mut(Box::new(|(v,): (i32,)| v + 10));
    assert_eq!(m.call_mut((1,)), Ok(11));
    assert_eq!(m.call_mut((5,)), Ok(15));
    assert!(matches!(m, Rfunc::Mut(_)));

    let mut o: Rfunc<(i32,), i32> = Rfunc::Once(Box::new(Single::new(|(v,): (i32,)| v * 3)));
    assert_eq!(o.call_mut((4,)), Ok(12));
    assert!(matches!(o, Rfunc::Expired));
    assert_eq!(o.call_mut((4,)), Err(CallError::Exhausted));
}

#[test]
fn slot_runs_its_strategy() {
    let reusable: Expectation<(u8,), u8> = Expectation::new(Rfunc::Mut(Box::new(|(v,): (u8,)| v + 1)));
    assert_eq!(reusable.call((1,)), Ok(2));
    assert_eq!(reusable.call((2,)), Ok(3));

    let once: Expectation<(u8,), u8> = Expectation::new(Rfunc::Once(Box::new(Single::new(|(v,): (u8,)| v + 1))));
    assert_eq!(once.call((1,)), Ok(2));
    assert_eq!(once.call((1,)), Err(CallError::Exhausted));

    let unset: Expectation<(u8,), u8> = Expectation::new(Rfunc::Default);
    assert_eq!(unset.call((1,)), Err(CallError::NoDefault));
}

#[test]
fn single_use_closure_may_move_out_what_it_captured() {
    let mut e = Expectations::default();
    let owned = String::from("hello");
    e.expect::<(), String>("greeting")
        .return_once(move |()| owned)
        .commit(&mut e);
    assert_eq!(e.called::<(), String>("greeting", ()), Ok(String::from("hello")));
    assert_eq!(
        e.called::<(), String>("greeting", ()),
        Err(CallError::Exhausted)
    );
}

#[test]
fn single_use_computation_guards_a_second_direct_call() {
    let mut once = Single::new(|(v,): (i32,)| v - 1);
    assert_eq!(once.respond_once((10,)), Ok(9));
    assert_eq!(once.respond_once((10,)), Err(CallError::Exhausted));
    assert_eq!(once.respond_once((3,)), Err(CallError::Exhausted));
}
