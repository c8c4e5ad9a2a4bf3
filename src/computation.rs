use vstd::prelude::*;
use crate::context::PollContext;
use crate::text::{choice_record, format_choice};

verus! {

/// The outcome of one poll: a final value, or "not finished yet".
///
/// None of the computations here ever returns `Pending`, but the protocol
/// keeps the possibility open for computations that take several steps.
pub enum Poll<T> {
    Ready(T),
    Pending,
}

impl<T> Poll<T> {
    /// Whether the poll produced a final value.
    pub fn is_ready(&self) -> (r: bool)
        ensures
            r == (self is Ready),
    {
        match self {
            Poll::Ready(_) => true,
            Poll::Pending => false,
        }
    }

    /// The final value of a poll known to have finished.
    pub fn into_ready(self) -> (v: T)
        requires
            self is Ready,
        ensures
            self == Poll::Ready(v),
    {
        match self {
            Poll::Ready(v) => v,
            Poll::Pending => vstd::pervasive::unreached(),
        }
    }
}

/// Relies on rand::random::<bool>, which draws a uniformly distributed
/// boolean from the thread-local generator; nothing is known of the outcome.
#[verifier::external_body]
fn draw_coin() -> (r: bool) {
    rand::random::<bool>()
}

/// A computation that, each time it is polled, yields one of two stored
/// values chosen by a fair coin, and records the choice where the context
/// keeps a trace log. It never signals its notification handle: it always
/// finishes at once.
pub struct TwoChoice {
    pub left: u64,
    pub right: u64,
}

impl TwoChoice {
    pub fn new(left: u64, right: u64) -> (r: TwoChoice)
        ensures
            r.left == left,
            r.right == right,
    {
        TwoChoice { left, right }
    }

    /// The value a poll yields for a coin that came up `pick_left`.
    pub open spec fn pick(&self, pick_left: bool) -> u64 {
        if pick_left {
            self.left
        } else {
            self.right
        }
    }

    /// One poll for a given coin: yields `left` when `pick_left` holds and
    /// `right` otherwise, and records `TwoChoice(<left>,<right>) -> <chosen>`.
    pub fn poll_with(&self, cx: &mut PollContext, pick_left: bool) -> (r: Poll<u64>)
        ensures
            r == Poll::Ready(self.pick(pick_left)),
            PollContext::recorded(
                *old(cx),
                *final(cx),
                choice_record(self.left, self.right, self.pick(pick_left)),
            ),
            final(cx).wf() == old(cx).wf(),
    {
        let chosen = if pick_left {
            self.left
        } else {
            self.right
        };
        cx.record(format_choice(self.left, self.right, chosen));
        Poll::Ready(chosen)
    }

    /// One poll: draws a fair coin and yields the value it picks, recording
    /// the choice where the context keeps a trace log. Every poll is
    /// independent of the ones before it.
    pub fn poll(&self, cx: &mut PollContext) -> (r: Poll<u64>)
        ensures
            r matches Poll::Ready(v) && (v == self.left || v == self.right)
                && PollContext::recorded(*old(cx), *final(cx), choice_record(self.left, self.right, v)),
            final(cx).wf() == old(cx).wf(),
    {
        let coin = draw_coin();
        self.poll_with(cx, coin)
    }
}

/// A computation that always yields the same value, and signals its
/// notification handle by reference before it does.
pub struct ConstantValue<T> {
    pub value: T,
}

impl<T: Copy> ConstantValue<T> {
    pub fn new(value: T) -> (r: ConstantValue<T>)
        ensures
            r.value == value,
    {
        ConstantValue { value }
    }

    /// One poll: wakes the context's handle by reference, then yields the
    /// stored value. A trace context is left untouched. Every poll is
    /// independent of the ones before it.
    pub fn poll(&self, cx: &mut PollContext) -> (r: Poll<T>)
        requires
            old(cx).wf(),
            old(cx).can_wake_by_ref(),
        ensures
            r == Poll::Ready(self.value),
            PollContext::woken_by_ref(*old(cx), *final(cx)),
            final(cx).trace() == old(cx).trace(),
            final(cx).wf(),
    {
        cx.wake_by_ref();
        Poll::Ready(self.value)
    }
}

} // verus!
