use vstd::prelude::*;

verus! {

/// Amount added to a target's counter by a consuming wake.
pub const WAKE_STEP: u64 = 1;

/// Amount added to a target's counter by a non-consuming wake, chosen so that
/// the two paths can be told apart from the final count.
pub const WAKE_BY_REF_STEP: u64 = 1000;

/// The notification targets of one run: one wake counter per target.
///
/// A handle names its target by index; handles never hold the counter itself,
/// so every clone of a handle reaches the very same counter.
pub struct WakerTable {
    counts: Vec<u64>,
}

/// A notification handle: a cheap, clonable reference to one target of a
/// [`WakerTable`].
pub struct NotificationHandle {
    target: usize,
}

impl View for WakerTable {
    type V = Seq<u64>;

    closed spec fn view(&self) -> Seq<u64> {
        self.counts@
    }
}

impl NotificationHandle {
    /// The index of the target this handle notifies.
    pub closed spec fn target(&self) -> nat {
        self.target as nat
    }

    /// Whether this handle names a target of `table`.
    pub open spec fn refers_to(&self, table: Seq<u64>) -> bool {
        self.target() < table.len()
    }

    /// The counters after this handle was woken by value.
    pub open spec fn woken(&self, table: Seq<u64>) -> Seq<u64> {
        table.update(self.target() as int, (table[self.target() as int] + WAKE_STEP) as u64)
    }

    /// The counters after this handle was woken by reference.
    pub open spec fn woken_by_ref(&self, table: Seq<u64>) -> Seq<u64> {
        table.update(
            self.target() as int,
            (table[self.target() as int] + WAKE_BY_REF_STEP) as u64,
        )
    }

    /// Whether a wake by value on `table` leaves the counter in range.
    pub open spec fn can_wake(&self, table: Seq<u64>) -> bool {
        self.refers_to(table) && table[self.target() as int] + WAKE_STEP <= u64::MAX
    }

    /// Whether a wake by reference on `table` leaves the counter in range.
    pub open spec fn can_wake_by_ref(&self, table: Seq<u64>) -> bool {
        self.refers_to(table) && table[self.target() as int] + WAKE_BY_REF_STEP <= u64::MAX
    }

    /// Signals "poll me again" and gives the handle up.
    pub fn wake(self, table: &mut WakerTable)
        requires
            self.can_wake(old(table)@),
        ensures
            final(table)@ == self.woken(old(table)@),
    {
        let t = self.target;
        let c = table.counts[t];
        table.counts.set(t, c + WAKE_STEP);
    }

    /// Signals "poll me again" and keeps the handle.
    pub fn wake_by_ref(&self, table: &mut WakerTable)
        requires
            self.can_wake_by_ref(old(table)@),
        ensures
            final(table)@ == self.woken_by_ref(old(table)@),
    {
        let t = self.target;
        let c = table.counts[t];
        table.counts.set(t, c + WAKE_BY_REF_STEP);
    }

    /// Gives the handle up without signalling: no counter changes.
    pub fn release(self) {
    }
}

impl Clone for NotificationHandle {
    /// A new handle that notifies the same target.
    fn clone(&self) -> (r: Self)
        ensures
            r.target() == self.target(),
    {
        NotificationHandle { target: self.target }
    }
}

impl WakerTable {
    /// A table with no targets.
    pub fn new() -> (r: WakerTable)
        ensures
            r@ == Seq::<u64>::empty(),
    {
        WakerTable { counts: Vec::new() }
    }

    /// Adds a target whose counter starts at zero, and returns the first
    /// handle to it.
    pub fn register(&mut self) -> (h: NotificationHandle)
        ensures
            final(self)@ == old(self)@.push(0),
            h.target() == old(self)@.len(),
    {
        let h = NotificationHandle { target: self.counts.len() };
        self.counts.push(0);
        h
    }

    /// The number of targets.
    pub fn len(&self) -> (r: usize)
        ensures
            r == self@.len(),
    {
        self.counts.len()
    }

    /// The wake counter of the target that `h` names.
    pub fn count(&self, h: &NotificationHandle) -> (r: u64)
        requires
            h.refers_to(self@),
        ensures
            r == self@[h.target() as int],
    {
        self.counts[h.target]
    }
}

/// Waking a clone by reference moves the same counter as waking the original:
/// a clone shares its target instead of copying it.
pub proof fn lemma_clone_shares_target(
    original: NotificationHandle,
    copy: NotificationHandle,
    table: Seq<u64>,
)
    requires
        copy.target() == original.target(),
    ensures
        copy.woken_by_ref(table) == original.woken_by_ref(table),
        copy.woken(table) == original.woken(table),
        copy.refers_to(table) == original.refers_to(table),
{
}

} // verus!
