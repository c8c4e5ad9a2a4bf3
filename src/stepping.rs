use vstd::prelude::*;
use crate::computation::{ConstantValue, Poll, TwoChoice};
use crate::context::PollContext;
use crate::text::choice_record;
use crate::waker::WAKE_BY_REF_STEP;

verus! {

/// The sum of a sequence of values.
pub open spec fn sum(s: Seq<u64>) -> int
    decreases s.len(),
{
    if s.len() == 0 {
        0
    } else {
        sum(s.drop_last()) + s.last()
    }
}

/// How many entries of `s` differ from `v`.
pub open spec fn count_other(s: Seq<u64>, v: u64) -> nat
    decreases s.len(),
{
    if s.len() == 0 {
        0
    } else {
        count_other(s.drop_last(), v) + if s.last() == v {
            0nat
        } else {
            1nat
        }
    }
}

/// Every entry of `s` is `left` or `right`.
pub open spec fn all_picks(s: Seq<u64>, left: u64, right: u64) -> bool {
    forall|i: int| 0 <= i < s.len() ==> #[trigger] s[i] == left || s[i] == right
}

/// The trace records of a run of two-choice polls that yielded `picks`.
pub open spec fn choice_records(left: u64, right: u64, picks: Seq<u64>) -> Seq<Seq<char>> {
    picks.map_values(|v: u64| choice_record(left, right, v))
}

/// The total of `n` two-choice polls of which `k` did not yield `left`.
pub open spec fn two_choice_total(n: int, left: u64, right: u64, k: int) -> int {
    n * left + k * (right - left)
}

/// A sum of entries that are each at most `m` is at most `m` per entry.
pub proof fn lemma_sum_bounded(s: Seq<u64>, m: u64)
    requires
        forall|i: int| 0 <= i < s.len() ==> #[trigger] s[i] <= m,
    ensures
        0 <= sum(s) <= s.len() * m,
    decreases s.len(),
{
    if s.len() > 0 {
        lemma_sum_bounded(s.drop_last(), m);
        assert(s.last() <= m);
        assert((s.len() - 1) * m + m == s.len() * m) by (nonlinear_arith);
    }
}

/// Where every entry is `left` or `right`, the sum takes `left` once per entry
/// and adds `right - left` once per entry that is not `left`.
pub proof fn lemma_sum_of_picks(s: Seq<u64>, left: u64, right: u64)
    requires
        all_picks(s, left, right),
    ensures
        sum(s) == s.len() * left + count_other(s, left) * (right - left),
        count_other(s, left) <= s.len(),
    decreases s.len(),
{
    if s.len() > 0 {
        let p = s.drop_last();
        assert(all_picks(p, left, right)) by {
            assert forall|i: int| 0 <= i < p.len() implies #[trigger] p[i] == left || p[i]
                == right by {
                assert(p[i] == s[i]);
            }
        }
        lemma_sum_of_picks(p, left, right);
        assert(s.last() == s[s.len() - 1]);
        let k = count_other(p, left);
        let n = p.len();
        let d = right - left;
        let m = s.len() as int;
        let c = count_other(s, left) as int;
        assert(sum(s) == sum(p) + s.last());
        if s.last() == left {
            assert(c == k);
        } else {
            assert(c == k + 1);
            assert(s.last() == right);
        }
        assert(sum(s) == m * left + c * d) by (nonlinear_arith)
            requires
                m == n + 1,
                sum(p) == n * left + k * d,
                sum(s) == sum(p) + s.last(),
                (s.last() == left && c == k) || (s.last() == right && c == k + 1),
                d == right - left,
        ;
    } else {
        assert(sum(s) == 0 && count_other(s, left) == 0);
    }
}

/// Accumulating two-choice polls: whatever the coins, the total of `n` polls of
/// `TwoChoice(left, right)` is `n * left` plus `right - left` for each of some
/// `k` of them, with `0 <= k <= n`, and so lies between the two extremes.
pub proof fn lemma_two_choice_total(picks: Seq<u64>, left: u64, right: u64)
    requires
        all_picks(picks, left, right),
        left <= right,
    ensures
        exists|k: int|
            0 <= k <= picks.len() && sum(picks) == #[trigger] two_choice_total(
                picks.len() as int,
                left,
                right,
                k,
            ),
        picks.len() * left <= sum(picks) <= picks.len() * right,
{
    lemma_sum_of_picks(picks, left, right);
    let k = count_other(picks, left) as int;
    let n = picks.len() as int;
    assert(k * (right - left) <= n * (right - left)) by (nonlinear_arith)
        requires
            k <= n,
            left <= right,
    ;
    assert(n * left + n * (right - left) == n * right) by (nonlinear_arith);
    assert(0 <= k * (right - left)) by (nonlinear_arith)
        requires
            0 <= k,
            left <= right,
    ;
    assert(sum(picks) == two_choice_total(n, left, right, k));
}

proof fn lemma_recorded_step(
    c0: PollContext,
    c1: PollContext,
    c2: PollContext,
    entries: Seq<Seq<char>>,
    entry: Seq<char>,
)
    requires
        PollContext::recorded_all(c0, c1, entries),
        PollContext::recorded(c1, c2, entry),
    ensures
        PollContext::recorded_all(c0, c2, entries.push(entry)),
{
    if c0 is Trace {
        assert(c0.trace() + entries.push(entry) =~= (c0.trace() + entries).push(entry));
    }
}

proof fn lemma_woken_step(c0: PollContext, c1: PollContext, c2: PollContext, n: nat)
    requires
        PollContext::woken_by_ref_times(c0, c1, n),
        PollContext::woken_by_ref(c1, c2),
        c0.can_wake_by_ref_times(n + 1),
    ensures
        PollContext::woken_by_ref_times(c0, c2, n + 1),
{
    if let PollContext::Notify { wakers: w0, handle: h0 } = c0 {
        if let PollContext::Notify { wakers: w2, handle: h2 } = c2 {
            if let PollContext::Notify { wakers: w1, handle: h1 } = c1 {
                let t = h0.target() as int;
                assert(w2@ =~= w0@.update(t, (w0@[t] + (n + 1) * WAKE_BY_REF_STEP) as u64));
            }
        }
    }
}

/// Polls a fresh `TwoChoice(left, right)` `rounds` times and returns what each
/// poll yielded, in call order. A trace context gains one record per poll,
/// in the same order.
pub fn poll_two_choice_rounds(left: u64, right: u64, rounds: usize, cx: &mut PollContext) -> (picks:
    Vec<u64>)
    ensures
        picks@.len() == rounds,
        all_picks(picks@, left, right),
        PollContext::recorded_all(*old(cx), *final(cx), choice_records(left, right, picks@)),
        final(cx).wf() == old(cx).wf(),
{
    let ghost c0 = *cx;
    let mut picks: Vec<u64> = Vec::new();
    let mut i: usize = 0;
    assert(choice_records(left, right, picks@) =~= Seq::empty());
    assert(c0.trace() + Seq::<Seq<char>>::empty() =~= c0.trace());
    while i < rounds
        invariant
            i <= rounds,
            picks@.len() == i,
            all_picks(picks@, left, right),
            PollContext::recorded_all(c0, *cx, choice_records(left, right, picks@)),
            cx.wf() == c0.wf(),
        decreases rounds - i,
    {
        let ghost c1 = *cx;
        let choice = TwoChoice::new(left, right);
        let v = choice.poll(cx).into_ready();
        proof {
            lemma_recorded_step(
                c0,
                c1,
                *cx,
                choice_records(left, right, picks@),
                choice_record(left, right, v),
            );
        }
        let ghost before = picks@;
        picks.push(v);
        assert(choice_records(left, right, picks@) =~= choice_records(left, right, before).push(
            choice_record(left, right, v),
        ));
        i = i + 1;
    }
    picks
}

/// Polls a fresh `TwoChoice(left, right)` `rounds` times and returns the sum
/// of what the polls yielded. A trace context gains one record per poll, in
/// call order.
pub fn accumulate_two_choice(left: u64, right: u64, rounds: usize, cx: &mut PollContext) -> (r:
    u64)
    requires
        rounds * left <= u64::MAX,
        rounds * right <= u64::MAX,
    ensures
        exists|picks: Seq<u64>|
            picks.len() == rounds && all_picks(picks, left, right) && r == #[trigger] sum(picks)
                && PollContext::recorded_all(
                *old(cx),
                *final(cx),
                choice_records(left, right, picks),
            ),
        final(cx).wf() == old(cx).wf(),
{
    let picks = poll_two_choice_rounds(left, right, rounds, cx);
    let ghost m: u64 = if left <= right {
        right
    } else {
        left
    };
    let mut total: u64 = 0;
    let mut i: usize = 0;
    assert(picks@.take(0) =~= Seq::<u64>::empty());
    while i < picks.len()
        invariant
            i <= picks@.len(),
            picks@.len() == rounds,
            all_picks(picks@, left, right),
            rounds * m <= u64::MAX,
            m == left || m == right,
            left <= m && right <= m,
            total == sum(picks@.take(i as int)),
        decreases picks@.len() - i,
    {
        let ghost prefix = picks@.take(i as int + 1);
        proof {
            assert(prefix.drop_last() =~= picks@.take(i as int));
            assert(prefix.last() == picks@[i as int]);
            assert forall|j: int| 0 <= j < prefix.len() implies #[trigger] prefix[j] <= m by {
                assert(prefix[j] == picks@[j]);
            }
            lemma_sum_bounded(prefix, m);
            assert((i + 1) * m <= rounds * m) by (nonlinear_arith)
                requires
                    i + 1 <= rounds,
            ;
        }
        total = total + picks[i];
        i = i + 1;
    }
    assert(picks@.take(rounds as int) =~= picks@);
    total
}

/// Polls a fresh `ConstantValue(value)` `rounds` times and returns the sum of
/// what the polls yielded. Each poll wakes the context's handle by reference
/// once.
pub fn accumulate_constant(value: u64, rounds: usize, cx: &mut PollContext) -> (r: u64)
    requires
        rounds * value <= u64::MAX,
        old(cx).wf(),
        old(cx).can_wake_by_ref_times(rounds as nat),
    ensures
        r == rounds * value,
        PollContext::woken_by_ref_times(*old(cx), *final(cx), rounds as nat),
        final(cx).wf(),
{
    let ghost c0 = *cx;
    let mut total: u64 = 0;
    let mut i: usize = 0;
    proof {
        if let PollContext::Notify { wakers, handle } = c0 {
            assert(wakers@ =~= wakers@.update(
                handle.target() as int,
                (wakers@[handle.target() as int] + 0 * WAKE_BY_REF_STEP) as u64,
            ));
        }
    }
    while i < rounds
        invariant
            i <= rounds,
            rounds * value <= u64::MAX,
            c0.wf(),
            c0.can_wake_by_ref_times(rounds as nat),
            total == i * value,
            PollContext::woken_by_ref_times(c0, *cx, i as nat),
            cx.wf(),
        decreases rounds - i,
    {
        let ghost c1 = *cx;
        proof {
            assert((i + 1) * value <= rounds * value) by (nonlinear_arith)
                requires
                    i + 1 <= rounds,
            ;
            assert((i + 1) * value == i * value + value) by (nonlinear_arith);
            assert(c0.can_wake_by_ref_times(i as nat + 1)) by {
                assert((i + 1) * WAKE_BY_REF_STEP <= rounds * WAKE_BY_REF_STEP);
            }
        }
        let constant = ConstantValue::new(value);
        let v = constant.poll(cx).into_ready();
        proof {
            lemma_woken_step(c0, c1, *cx, i as nat);
        }
        total = total + v;
        i = i + 1;
    }
    total
}

/// Ten polls of `TwoChoice(17, 29)`, summed: whatever the coins, the total
/// lies in `[170, 290]` and is `170 + 12 * k` (that is, `10 * 17 + k * (29 - 17)`)
/// for some `k` in `[0, 10]`.
pub fn sum_two_choice_polls(cx: &mut PollContext) -> (r: u64)
    ensures
        170 <= r <= 290,
        exists|k: int|
            0 <= k <= 10 && r == #[trigger] two_choice_total(10, 17, 29, k) && r == 170 + 12 * k,
        exists|picks: Seq<u64>|
            picks.len() == 10 && all_picks(picks, 17, 29) && r == #[trigger] sum(picks)
                && PollContext::recorded_all(*old(cx), *final(cx), choice_records(17, 29, picks)),
        final(cx).wf() == old(cx).wf(),
{
    let r = accumulate_two_choice(17, 29, 10, cx);
    proof {
        let picks = choose|picks: Seq<u64>|
            picks.len() == 10 && all_picks(picks, 17, 29) && r == #[trigger] sum(picks)
                && PollContext::recorded_all(*old(cx), *cx, choice_records(17, 29, picks));
        lemma_two_choice_total(picks, 17, 29);
        let k = choose|k: int|
            0 <= k <= picks.len() && sum(picks) == #[trigger] two_choice_total(
                picks.len() as int,
                17,
                29,
                k,
            );
        assert(r == two_choice_total(10, 17, 29, k));
    }
    r
}

/// Ten polls of `ConstantValue(1729)`, summed: the total is 17290, and the
/// context's handle was woken by reference ten times.
pub fn sum_constant_polls(cx: &mut PollContext) -> (r: u64)
    requires
        old(cx).wf(),
        old(cx).can_wake_by_ref_times(10),
    ensures
        r == 17290,
        PollContext::woken_by_ref_times(*old(cx), *final(cx), 10),
        final(cx).wf(),
{
    accumulate_constant(1729, 10, cx)
}

} // verus!
