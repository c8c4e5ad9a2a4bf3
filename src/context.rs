use vstd::prelude::*;
use crate::waker::{NotificationHandle, WakerTable, WAKE_BY_REF_STEP};

verus! {

/// What a computation may use while it is polled.
///
/// The driver picks the variant for each run; a computation only asks for a
/// capability ("notify me again", "record an observation") and never learns
/// which concrete payload stands behind it.
pub enum PollContext {
    /// A genuine context: a notification handle and the targets it may wake.
    Notify { wakers: WakerTable, handle: NotificationHandle },
    /// A context that records observations into an ordered trace log, and
    /// has no notification target.
    Trace { log: Vec<String> },
}

impl PollContext {
    /// A context is usable when its handle names one of its targets.
    pub open spec fn wf(&self) -> bool {
        match self {
            PollContext::Notify { wakers, handle } => handle.refers_to(wakers@),
            PollContext::Trace { .. } => true,
        }
    }

    /// The entries of the trace log, oldest first; empty for a genuine context.
    pub open spec fn trace(&self) -> Seq<Seq<char>> {
        match self {
            PollContext::Notify { .. } => Seq::empty(),
            PollContext::Trace { log } => log@.map_values(|s: String| s@),
        }
    }

    /// Whether a wake by reference through this context leaves the counter in range.
    pub open spec fn can_wake_by_ref(&self) -> bool {
        match self {
            PollContext::Notify { wakers, handle } => handle.can_wake_by_ref(wakers@),
            PollContext::Trace { .. } => true,
        }
    }

    /// `after` is `before` once woken by reference: in a genuine context the
    /// handle's counter grows by the wake-by-reference step and nothing else
    /// changes; a trace context has nothing to wake and stays as it was.
    pub open spec fn woken_by_ref(before: PollContext, after: PollContext) -> bool {
        match before {
            PollContext::Notify { wakers: w0, handle: h0 } => match after {
                PollContext::Notify { wakers: w1, handle: h1 } => h1 == h0 && w1@
                    == h0.woken_by_ref(w0@),
                PollContext::Trace { .. } => false,
            },
            PollContext::Trace { .. } => after == before,
        }
    }

    /// `after` is `before` once `entry` was recorded: a trace context appends
    /// it to its log; a genuine context has no log and stays as it was.
    pub open spec fn recorded(before: PollContext, after: PollContext, entry: Seq<char>) -> bool {
        match before {
            PollContext::Notify { .. } => after == before,
            PollContext::Trace { .. } => after is Trace && after.trace() == before.trace().push(
                entry,
            ),
        }
    }

    /// Whether `n` wakes by reference through this context leave the counter
    /// in range.
    pub open spec fn can_wake_by_ref_times(&self, n: nat) -> bool {
        match self {
            PollContext::Notify { wakers, handle } => handle.refers_to(wakers@) && wakers@[handle.target() as int]
                + n * WAKE_BY_REF_STEP <= u64::MAX,
            PollContext::Trace { .. } => true,
        }
    }

    /// `after` is `before` once woken by reference `n` times: in a genuine
    /// context the handle's counter grows by `n` wake-by-reference steps and
    /// nothing else changes; a trace context stays as it was.
    pub open spec fn woken_by_ref_times(before: PollContext, after: PollContext, n: nat) -> bool {
        match before {
            PollContext::Notify { wakers: w0, handle: h0 } => match after {
                PollContext::Notify { wakers: w1, handle: h1 } => h1 == h0 && w1@ == w0@.update(
                    h0.target() as int,
                    (w0@[h0.target() as int] + n * WAKE_BY_REF_STEP) as u64,
                ),
                PollContext::Trace { .. } => false,
            },
            PollContext::Trace { .. } => after == before,
        }
    }

    /// `after` is `before` once `entries` were recorded in order: a trace
    /// context appends them to its log; a genuine context stays as it was.
    pub open spec fn recorded_all(
        before: PollContext,
        after: PollContext,
        entries: Seq<Seq<char>>,
    ) -> bool {
        match before {
            PollContext::Notify { .. } => after == before,
            PollContext::Trace { .. } => after is Trace && after.trace() == before.trace()
                + entries,
        }
    }

    /// Signals the context's notification handle without giving it up.
    pub fn wake_by_ref(&mut self)
        requires
            old(self).wf(),
            old(self).can_wake_by_ref(),
        ensures
            PollContext::woken_by_ref(*old(self), *final(self)),
            final(self).wf(),
    {
        match self {
            PollContext::Notify { wakers, handle } => handle.wake_by_ref(wakers),
            PollContext::Trace { .. } => {},
        }
    }

    /// Records an observation, where the context keeps a trace log.
    pub fn record(&mut self, entry: String)
        ensures
            PollContext::recorded(*old(self), *final(self), entry@),
            final(self).wf() == old(self).wf(),
    {
        match self {
            PollContext::Notify { .. } => {},
            PollContext::Trace { log } => {
                log.push(entry);
                assert(log@.map_values(|s: String| s@) =~= old(self).trace().push(entry@));
            },
        }
    }

    /// The wake counter of the handle's target, for a genuine context.
    pub fn wake_count(&self) -> (r: Option<u64>)
        requires
            self.wf(),
        ensures
            r == (match self {
                PollContext::Notify { wakers, handle } => Some(wakers@[handle.target() as int]),
                PollContext::Trace { .. } => None,
            }),
    {
        match self {
            PollContext::Notify { wakers, handle } => Some(wakers.count(handle)),
            PollContext::Trace { .. } => None,
        }
    }

    /// A genuine context over `handle`.
    pub fn notify(wakers: WakerTable, handle: NotificationHandle) -> (r: PollContext)
        requires
            handle.refers_to(wakers@),
        ensures
            r == (PollContext::Notify { wakers, handle }),
            r.wf(),
    {
        PollContext::Notify { wakers, handle }
    }

    /// A trace context with an empty log.
    pub fn tracing() -> (r: PollContext)
        ensures
            r matches PollContext::Trace { log } && log@.len() == 0,
            r.trace().len() == 0,
    {
        PollContext::Trace { log: Vec::new() }
    }
}

} // verus!
