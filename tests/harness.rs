use future_harness::computation::{ConstantValue, Poll, TwoChoice};
use future_harness::context::PollContext;
use future_harness::stepping::{
    accumulate_constant, accumulate_two_choice, poll_two_choice_rounds, sum_constant_polls,
    sum_two_choice_polls,
};
use future_harness::text::{format_choice, to_decimal};
use future_harness::waker::WakerTable;

fn notify_context() -> PollContext {
    let mut table = WakerTable::new();
    let handle = table.register();
    PollContext::notify(table, handle)
}

fn trace_of(cx: &PollContext) -> Vec<String> {
    match cx {
        PollContext::Trace { log } => log.clone(),
        PollContext::Notify { .. } => panic!("not a trace context"),
    }
}

fn ready<T>(p: Poll<T>) -> T {
    match p {
        Poll::Ready(v) => v,
        Poll::Pending => panic!("poll did not finish"),
    }
}

#[test]
fn constant_value_wakes_by_ref() {
    let mut cx = notify_context();
    let p = ConstantValue::new(1729u64).poll(&mut cx);
    assert_eq!(ready(p), 1729);
    assert_eq!(cx.wake_count(), Some(1000));
}

#[test]
fn constant_value_twice_wakes_twice() {
    let mut cx = notify_context();
    let c = ConstantValue::new('x');
    assert_eq!(ready(c.poll(&mut cx)), 'x');
    assert_eq!(ready(c.poll(&mut cx)), 'x');
    assert_eq!(cx.wake_count(), Some(2000));
}

#[test]
fn two_choice_is_fair_and_two_valued() {
    let mut cx = notify_context();
    let mut lefts: u32 = 0;
    for _ in 0..10_000 {
        let v = ready(TwoChoice::new(3, 8).poll(&mut cx));
        assert!(v == 3 || v == 8);
        if v == 3 {
            lefts += 1;
        }
    }
    let fraction = lefts as f64 / 10_000.0;
    assert!((fraction - 0.5).abs() <= 0.05, "fraction {}", fraction);
    assert_eq!(cx.wake_count(), Some(0));
}

#[test]
fn two_choice_records_each_poll() {
    let mut cx = PollContext::tracing();
    let mut seen = Vec::new();
    for m in 1..=6usize {
        let v = ready(TwoChoice::new(17, 29).poll(&mut cx));
        seen.push(v);
        let log = trace_of(&cx);
        assert_eq!(log.len(), m);
        assert_eq!(log[m - 1], format!("TwoChoice(17,29) -> {}", v));
    }
    let log = trace_of(&cx);
    for (entry, v) in log.iter().zip(seen.iter()) {
        assert_eq!(*entry, format!("TwoChoice(17,29) -> {}", v));
    }
}

#[test]
fn two_choice_poll_with_given_coin() {
    let mut cx = PollContext::tracing();
    let c = TwoChoice::new(17, 29);
    assert_eq!(ready(c.poll_with(&mut cx, true)), 17);
    assert_eq!(ready(c.poll_with(&mut cx, false)), 29);
    assert_eq!(
        trace_of(&cx),
        vec!["TwoChoice(17,29) -> 17".to_string(), "TwoChoice(17,29) -> 29".to_string()]
    );
}

#[test]
fn two_choice_in_notify_context_records_nothing() {
    let mut cx = notify_context();
    let v = ready(TwoChoice::new(0, 1).poll_with(&mut cx, false));
    assert_eq!(v, 1);
    assert_eq!(cx.wake_count(), Some(0));
}

#[test]
fn rounds_return_picks_in_call_order() {
    let mut cx = PollContext::tracing();
    let picks = poll_two_choice_rounds(4, 90, 7, &mut cx);
    assert_eq!(picks.len(), 7);
    let log = trace_of(&cx);
    assert_eq!(log.len(), 7);
    for (entry, v) in log.iter().zip(picks.iter()) {
        assert!(*v == 4 || *v == 90);
        assert_eq!(*entry, format!("TwoChoice(4,90) -> {}", v));
    }
}

#[test]
fn zero_rounds_leave_trace_empty() {
    let mut cx = PollContext::tracing();
    assert!(poll_two_choice_rounds(1, 2, 0, &mut cx).is_empty());
    assert_eq!(accumulate_two_choice(1, 2, 0, &mut cx), 0);
    assert!(trace_of(&cx).is_empty());
}

#[test]
fn ten_two_choice_polls_sum_in_steps_of_twelve() {
    for _ in 0..200 {
        let mut cx = PollContext::tracing();
        let r = sum_two_choice_polls(&mut cx);
        assert!((170..=290).contains(&r));
        assert_eq!((r - 170) % 12, 0);
        let log = trace_of(&cx);
        assert_eq!(log.len(), 10);
        let mut total = 0u64;
        for entry in &log {
            let chosen: u64 = entry.rsplit(' ').next().unwrap().parse().unwrap();
            total += chosen;
        }
        assert_eq!(total, r);
    }
}

#[test]
fn accumulate_equal_choices() {
    let mut cx = notify_context();
    assert_eq!(accumulate_two_choice(5, 5, 9, &mut cx), 45);
}

#[test]
fn accumulate_largest_values_fit() {
    let mut cx = notify_context();
    assert_eq!(accumulate_two_choice(u64::MAX, u64::MAX, 1, &mut cx), u64::MAX);
}

#[test]
fn clone_shares_counter() {
    let mut table = WakerTable::new();
    let handle = table.register();
    let copy = handle.clone();
    copy.wake_by_ref(&mut table);
    assert_eq!(table.count(&handle), 1000);
    handle.wake_by_ref(&mut table);
    assert_eq!(table.count(&copy), 2000);
    copy.wake(&mut table);
    assert_eq!(table.count(&handle), 2001);
}

#[test]
fn handles_of_distinct_targets_are_independent() {
    let mut table = WakerTable::new();
    let first = table.register();
    let second = table.register();
    assert_eq!(table.len(), 2);
    second.wake_by_ref(&mut table);
    assert_eq!(table.count(&first), 0);
    assert_eq!(table.count(&second), 1000);
    first.release();
    assert_eq!(table.count(&second), 1000);
}

#[test]
fn consuming_wake_adds_one() {
    let mut table = WakerTable::new();
    let handle = table.register();
    let probe = handle.clone();
    handle.wake(&mut table);
    assert_eq!(table.count(&probe), 1);
}

#[test]
fn constant_value_leaves_trace_empty() {
    let mut cx = PollContext::tracing();
    let p = ConstantValue::new(1729u64).poll(&mut cx);
    assert_eq!(ready(p), 1729);
    assert!(trace_of(&cx).is_empty());
    assert_eq!(cx.wake_count(), None);
}

#[test]
fn ten_constant_polls() {
    let mut cx = notify_context();
    assert_eq!(sum_constant_polls(&mut cx), 17290);
    assert_eq!(cx.wake_count(), Some(10_000));
}

#[test]
fn accumulate_constant_in_trace_context() {
    let mut cx = PollContext::tracing();
    assert_eq!(accumulate_constant(7, 3, &mut cx), 21);
    assert!(trace_of(&cx).is_empty());
}

#[test]
fn poll_outcome_queries() {
    assert!(Poll::Ready(3u8).is_ready());
    assert!(!Poll::<u8>::Pending.is_ready());
    assert_eq!(Poll::Ready(3u8).into_ready(), 3);
}

#[test]
fn decimal_rendering() {
    assert_eq!(to_decimal(0), "0");
    assert_eq!(to_decimal(9), "9");
    assert_eq!(to_decimal(10), "10");
    assert_eq!(to_decimal(1729), "1729");
    assert_eq!(to_decimal(u64::MAX), u64::MAX.to_string());
}

#[test]
fn choice_record_text() {
    assert_eq!(format_choice(17, 29, 29), "TwoChoice(17,29) -> 29");
    assert_eq!(format_choice(0, 100, 0), "TwoChoice(0,100) -> 0");
}
