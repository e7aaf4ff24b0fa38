use retry::oneshot::{repeat_oneshot, repeat_with, retry_oneshot, retry_with};
use retry::prelude::{RepeatOneshot0, RetryOneshot0};
use retry::tryable::Tryable;

#[test]
fn retry_succeeds_on_third_call() {
    let mut calls = 0u32;
    let mut op = || {
        calls += 1;
        if calls < 3 {
            Err("x")
        } else {
            Ok(5)
        }
    };
    let r: Result<i32, &str> = retry_oneshot(&mut op, 3);
    assert_eq!(r, Ok(5));
    assert_eq!(calls, 3);
}

#[test]
fn retry_trait_succeeds_on_third_call() {
    let mut calls = 0u32;
    let r: Result<i32, &str> = (|| {
        calls += 1;
        if calls < 3 {
            Err("x")
        } else {
            Ok(5)
        }
    })
    .retry::<3>();
    assert_eq!(r, Ok(5));
    assert_eq!(calls, 3);
}

#[test]
fn retry_gives_up_after_budget() {
    let mut calls = 0u32;
    let mut op = || -> Result<i32, &str> {
        calls += 1;
        Err("x")
    };
    let r = retry_oneshot(&mut op, 2);
    assert_eq!(r, Err("x"));
    assert_eq!(calls, 3);
}

#[test]
fn retry_returns_last_negative_value() {
    let mut calls = 0u32;
    let mut op = || -> Result<i32, u32> {
        calls += 1;
        Err(calls)
    };
    let r = retry_oneshot(&mut op, 4);
    assert_eq!(r, Err(5));
    assert_eq!(calls, 5);
}

#[test]
fn retry_with_zero_budget_calls_once() {
    let mut calls = 0u32;
    let mut op = || -> Option<u32> {
        calls += 1;
        None
    };
    assert_eq!(retry_oneshot(&mut op, 0), None);
    assert_eq!(calls, 1);
}

#[test]
fn retry_stops_at_first_success() {
    for budget in 0usize..6 {
        for first_ok in 1u32..=(budget as u32 + 1) {
            let mut calls = 0u32;
            let mut op = || -> Option<u32> {
                calls += 1;
                if calls >= first_ok {
                    Some(calls)
                } else {
                    None
                }
            };
            assert_eq!(retry_oneshot(&mut op, budget), Some(first_ok));
            assert_eq!(calls, first_ok);
        }
    }
}

#[test]
fn retry_success_on_first_call_does_not_use_budget() {
    let mut calls = 0u32;
    let mut op = || -> Result<u8, ()> {
        calls += 1;
        Ok(1)
    };
    assert_eq!(retry_oneshot(&mut op, usize::MAX), Ok(1));
    assert_eq!(calls, 1);
}

#[test]
fn repeat_returns_fifth_counter_value() {
    let mut counter = 0i32;
    let mut op = || {
        counter += 1;
        counter
    };
    assert_eq!(repeat_oneshot(&mut op, 5), 5);
    assert_eq!(counter, 5);
}

#[test]
fn repeat_trait_returns_fifth_counter_value() {
    let mut counter = 0i32;
    let mut op = || {
        counter -= 1;
        counter
    };
    assert_eq!(op.repeat::<5>(), -5);
    drop(op);
    assert_eq!(counter, -5);
}

#[test]
fn repeat_ignores_outcome() {
    for count in 1usize..8 {
        let mut calls = 0usize;
        let mut op = || -> Result<usize, usize> {
            calls += 1;
            if calls % 2 == 0 {
                Ok(calls)
            } else {
                Err(calls)
            }
        };
        let r = repeat_oneshot(&mut op, count);
        assert_eq!(calls, count);
        assert_eq!(r.is_err(), count % 2 == 1);
    }
}

#[test]
fn arguments_are_cloned_for_every_attempt() {
    let mut seen: Vec<Vec<u8>> = Vec::new();
    let mut op = |mut v: Vec<u8>| -> Result<(), ()> {
        seen.push(v.clone());
        v.push(9);
        Err(())
    };
    let args = vec![1u8, 2];
    assert_eq!(retry_with(&mut op, 2, &args), Err(()));
    assert_eq!(seen, vec![vec![1u8, 2], vec![1, 2], vec![1, 2]]);
    assert_eq!(args, vec![1u8, 2]);
}

#[test]
fn repeat_with_tuple_arguments() {
    let mut calls = 0u32;
    let mut add = |(a, b): (i32, i32)| {
        calls += 1;
        a + b
    };
    assert_eq!(repeat_with(&mut add, 3, &(1, 2)), 3);
    assert_eq!(calls, 3);
}

#[test]
fn outcome_classification() {
    assert!(Err::<u8, u8>(1).negative());
    assert!(!Ok::<u8, u8>(1).negative());
    assert!(None::<u8>.negative());
    assert!(!Some(0u8).negative());
}
