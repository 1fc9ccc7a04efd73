//! Per-item download state, keyed by position in the active result set.
//!
//! Each item is either Enabled (a download may be dispatched) or
//! Disabled (a download is in flight).  A generation counter identifies
//! the result set the states belong to; outcome messages carry the
//! generation they were dispatched under, so an outcome that survives
//! its result set is recognised as stale and discarded.

use vstd::prelude::*;
use crate::message::{DeliveryReport, Ticket};

verus! {

/// The state of one item: its position, whether a download may be
/// dispatched for it, and the last reported download progress.
#[derive(Debug, Clone, Copy, PartialEq, Eq, Structural)]
pub struct ItemState {
    pub index: usize,
    pub enabled: bool,
    pub progress: u32,
}

/// The mathematical content of an [`ItemStateStore`]: which result-set
/// generation it serves and the sequence of per-item states.
pub struct StoreView {
    pub generation: nat,
    pub items: Seq<ItemState>,
}

impl StoreView {
    /// Each item records the position it sits at.
    pub open spec fn wf(self) -> bool {
        forall|i: int| 0 <= i < self.items.len() ==> (#[trigger] self.items[i]).index == i
    }
}

/// The per-item states a fresh result set of `n` items starts with:
/// every item Enabled, with zero progress.
pub open spec fn fresh_items(n: nat) -> Seq<ItemState> {
    Seq::new(n, |i: int| ItemState { index: i as usize, enabled: true, progress: 0 })
}

/// `items` with position `i` switched to enabledness `e`, all else kept.
pub open spec fn set_enabled(items: Seq<ItemState>, i: int, e: bool) -> Seq<ItemState> {
    items.update(i, ItemState { index: items[i].index, enabled: e, progress: items[i].progress })
}

/// `items` with position `i`'s progress set to `p`, all else kept.
pub open spec fn set_progress(items: Seq<ItemState>, i: int, p: u32) -> Seq<ItemState> {
    items.update(i, ItemState { index: items[i].index, enabled: items[i].enabled, progress: p })
}

/// A ticket acts on the store only while the store still serves the
/// generation the ticket was issued under and the position exists.
pub open spec fn ticket_current(s: StoreView, t: Ticket) -> bool {
    t.generation as nat == s.generation && (t.index as int) < s.items.len()
}

/// The dispatch precondition: the position exists and is Enabled.
pub open spec fn dispatch_permitted(s: StoreView, i: int) -> bool {
    0 <= i < s.items.len() && s.items[i].enabled
}

/// Dispatching a download disables the item and changes nothing else.
pub open spec fn dispatch_step(s: StoreView, i: int) -> StoreView {
    StoreView { generation: s.generation, items: set_enabled(s.items, i, false) }
}

/// A new result set of `n` items replaces the store: the generation
/// advances and the states are rebuilt from scratch.
pub open spec fn reset_step(s: StoreView, n: nat) -> StoreView {
    StoreView { generation: s.generation + 1, items: fresh_items(n) }
}

/// A terminal download outcome (success or failure) restores its item
/// to Enabled — but only for a current ticket whose item is actually
/// Disabled; any other ticket leaves the store untouched.
pub open spec fn terminal_step(s: StoreView, t: Ticket) -> StoreView {
    if ticket_current(s, t) && !s.items[t.index as int].enabled {
        StoreView { generation: s.generation, items: set_enabled(s.items, t.index as int, true) }
    } else {
        s
    }
}

/// How a terminal outcome is classified: `Reenabled` when it acted,
/// `Stale` when it was discarded.
pub open spec fn terminal_report(s: StoreView, t: Ticket) -> DeliveryReport {
    if ticket_current(s, t) && !s.items[t.index as int].enabled {
        DeliveryReport::Reenabled
    } else {
        DeliveryReport::Stale
    }
}

/// A progress report updates the progress field of its item without
/// changing enabledness; a stale ticket leaves the store untouched.
pub open spec fn progress_step(s: StoreView, t: Ticket, p: u32) -> StoreView {
    if ticket_current(s, t) {
        StoreView { generation: s.generation, items: set_progress(s.items, t.index as int, p) }
    } else {
        s
    }
}

/// How a progress report is classified.
pub open spec fn progress_report(s: StoreView, t: Ticket) -> DeliveryReport {
    if ticket_current(s, t) {
        DeliveryReport::ProgressUpdated
    } else {
        DeliveryReport::Stale
    }
}

/// The per-item state store.  It is owned by the single consumer and is
/// only ever mutated in reaction to a drained message or a dispatch.
pub struct ItemStateStore {
    generation: u64,
    states: Vec<ItemState>,
}

impl View for ItemStateStore {
    type V = StoreView;

    closed spec fn view(&self) -> StoreView {
        StoreView { generation: self.generation as nat, items: self.states@ }
    }
}

impl ItemStateStore {
    /// An empty store, before any result set has arrived.
    pub fn new() -> (s: ItemStateStore)
        ensures
            s@.generation == 0,
            s@.items.len() == 0,
            s@.wf(),
    {
        ItemStateStore { generation: 0, states: Vec::new() }
    }

    /// How many items the active result set has.
    pub fn len(&self) -> (n: usize)
        ensures
            n == self@.items.len(),
    {
        self.states.len()
    }

    /// The generation of the result set the store currently serves.
    pub fn generation(&self) -> (g: u64)
        ensures
            g as nat == self@.generation,
    {
        self.generation
    }

    /// Whether a download may be dispatched for position `i`.
    pub fn is_enabled(&self, i: usize) -> (b: bool)
        requires
            i < self@.items.len(),
        ensures
            b == self@.items[i as int].enabled,
    {
        self.states[i].enabled
    }

    /// The last reported download progress of position `i`.
    pub fn progress_of(&self, i: usize) -> (p: u32)
        requires
            i < self@.items.len(),
        ensures
            p == self@.items[i as int].progress,
    {
        self.states[i].progress
    }

    /// Replace the store for a new result set of `count` items: the
    /// generation advances, every previous state is discarded, and each
    /// new item starts Enabled with zero progress.
    pub fn reset(&mut self, count: usize)
        requires
            old(self)@.generation < u64::MAX,
        ensures
            final(self)@ == reset_step(old(self)@, count as nat),
            final(self)@.wf(),
    {
        self.generation = self.generation + 1;
        let mut fresh: Vec<ItemState> = Vec::new();
        let mut i: usize = 0;
        while i < count
            invariant
                i <= count,
                fresh@.len() == i as nat,
                forall|j: int| 0 <= j < i ==> #[trigger] fresh@[j]
                    == (ItemState { index: j as usize, enabled: true, progress: 0u32 }),
            decreases count - i,
        {
            fresh.push(ItemState { index: i, enabled: true, progress: 0 });
            i = i + 1;
        }
        self.states = fresh;
        proof {
            assert(self.states@ =~= fresh_items(count as nat));
        }
    }

    /// Dispatch a download for position `i`.  The caller must hold the
    /// item Enabled; the item is Disabled at once and the returned
    /// ticket correlates the eventual outcome with this dispatch.
    pub fn dispatch(&mut self, i: usize) -> (t: Ticket)
        requires
            old(self)@.wf(),
            dispatch_permitted(old(self)@, i as int),
        ensures
            final(self)@ == dispatch_step(old(self)@, i as int),
            final(self)@.wf(),
            !final(self)@.items[i as int].enabled,
            t.generation as nat == old(self)@.generation,
            t.index == i,
    {
        let current = self.states[i];
        self.states.set(i, ItemState { index: current.index, enabled: false, progress: current.progress });
        Ticket { generation: self.generation, index: i }
    }

    /// Deliver a terminal download outcome (`Done` or a correlated
    /// `Error`): a current ticket whose item is Disabled restores it to
    /// Enabled; any other ticket is discarded as stale.
    pub fn deliver_terminal(&mut self, t: Ticket) -> (r: DeliveryReport)
        requires
            old(self)@.wf(),
        ensures
            final(self)@ == terminal_step(old(self)@, t),
            r == terminal_report(old(self)@, t),
            final(self)@.wf(),
    {
        if t.generation == self.generation && t.index < self.states.len()
            && !self.states[t.index].enabled
        {
            let current = self.states[t.index];
            self.states.set(t.index, ItemState { index: current.index, enabled: true, progress: current.progress });
            DeliveryReport::Reenabled
        } else {
            DeliveryReport::Stale
        }
    }

    /// Deliver a progress report: a current ticket has its item's
    /// progress updated, enabledness untouched; a stale ticket is
    /// discarded.
    pub fn deliver_progress(&mut self, t: Ticket, percent: u32) -> (r: DeliveryReport)
        requires
            old(self)@.wf(),
        ensures
            final(self)@ == progress_step(old(self)@, t, percent),
            r == progress_report(old(self)@, t),
            final(self)@.wf(),
    {
        if t.generation == self.generation && t.index < self.states.len() {
            let current = self.states[t.index];
            self.states.set(t.index, ItemState { index: current.index, enabled: current.enabled, progress: percent });
            DeliveryReport::ProgressUpdated
        } else {
            DeliveryReport::Stale
        }
    }
}

/// Immediately after a dispatch the item is Disabled, and the terminal
/// outcome carrying that dispatch's ticket restores exactly that item
/// to Enabled, progress and all other items untouched.
pub proof fn lemma_dispatch_then_terminal(s: StoreView, t: Ticket)
    requires
        s.wf(),
        dispatch_permitted(s, t.index as int),
        t.generation as nat == s.generation,
    ensures
        !dispatch_step(s, t.index as int).items[t.index as int].enabled,
        terminal_report(dispatch_step(s, t.index as int), t) == DeliveryReport::Reenabled,
        terminal_step(dispatch_step(s, t.index as int), t).items[t.index as int].enabled,
        terminal_step(dispatch_step(s, t.index as int), t).items[t.index as int].progress
            == s.items[t.index as int].progress,
        forall|j: int| 0 <= j < s.items.len() && j != t.index as int
            ==> terminal_step(dispatch_step(s, t.index as int), t).items[j] == s.items[j],
{
}

/// While an item is Disabled — a download in flight — a second dispatch
/// for the same position is not permitted; only the delivery of `Done`
/// or a correlated `Error` restores permission.
pub proof fn lemma_no_concurrent_dispatch(s: StoreView, i: int)
    requires
        0 <= i < s.items.len(),
        !s.items[i].enabled,
    ensures
        !dispatch_permitted(s, i),
{
}

/// The arrival of a new result set fully replaces the store: the new
/// states depend only on the new set's length — nothing of the previous
/// store survives — and every new item starts Enabled with zero progress.
pub proof fn lemma_new_set_replaces_store(s1: StoreView, s2: StoreView, n: nat)
    ensures
        reset_step(s1, n).items == reset_step(s2, n).items,
        reset_step(s1, n).items.len() == n,
        forall|i: int| 0 <= i < n ==> (#[trigger] reset_step(s1, n).items[i]).enabled,
        forall|i: int| 0 <= i < n ==> (#[trigger] reset_step(s1, n).items[i]).progress == 0,
        reset_step(s1, n).generation == s1.generation + 1,
{
}

/// A ticket issued against the current or an earlier result set is
/// stale against every later one: replacing the set strictly increases
/// the generation, and a non-current ticket is discarded by both
/// terminal and progress delivery, the store unchanged.
pub proof fn lemma_superseded_ticket_discarded(s: StoreView, t: Ticket, n: nat, p: u32)
    requires
        t.generation as nat <= s.generation,
    ensures
        !ticket_current(reset_step(s, n), t),
        terminal_step(reset_step(s, n), t) == reset_step(s, n),
        terminal_report(reset_step(s, n), t) == DeliveryReport::Stale,
        progress_step(reset_step(s, n), t, p) == reset_step(s, n),
        progress_report(reset_step(s, n), t) == DeliveryReport::Stale,
{
}

} // verus!
