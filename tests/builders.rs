use retry::builder::repeat::Repeat;
use retry::builder::retry::Retry;
use retry::builder::run::{Run0, Run1};

#[test]
fn builder_repeat_runs_count_times() {
    let mut calls = 0u32;
    let mut r = (|| {
        calls += 1;
        calls * 10
    })
    .repeat(4);
    assert_eq!(r.run(), 40);
    drop(r);
    assert_eq!(calls, 4);
}

#[test]
fn builder_retry_follows_budget() {
    let mut calls = 0u32;
    let mut r = (|| -> Result<u32, u32> {
        calls += 1;
        Err(calls)
    })
    .retry(2);
    assert_eq!(r.run(), Err(3));
    drop(r);
    assert_eq!(calls, 3);
}

#[test]
fn builder_retry_stops_on_success() {
    let mut calls = 0u32;
    let mut r = (|| -> Option<u32> {
        calls += 1;
        if calls == 2 {
            Some(7)
        } else {
            None
        }
    })
    .retry(5);
    assert_eq!(r.run(), Some(7));
    drop(r);
    assert_eq!(calls, 2);
}

#[test]
fn builder_run_with_argument_clones_it() {
    let mut seen = 0u32;
    let mut r = (|mut v: Vec<u32>| -> Result<u32, u32> {
        v.push(1);
        seen += v.len() as u32;
        Err(v.len() as u32)
    })
    .retry(1);
    assert_eq!(r.run(vec![5, 6]), Err(3));
    drop(r);
    assert_eq!(seen, 6);
}

#[test]
fn builder_repeat_with_tuple_argument() {
    let mut r = (|(a, b): (i32, i32)| a * b).repeat(2);
    assert_eq!(r.run((3, 4)), 12);
}
