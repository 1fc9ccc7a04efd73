//! The consumer side of the coordination layer: the presentation loop's
//! exclusive view of the active result set and the per-item states,
//! mutated only by reflecting one drained outcome message at a time.

use vstd::prelude::*;
use crate::data::SearchResponse;
use crate::mailbox::Mailbox;
use crate::message::{DeliveryReport, WorkerMessage};
use crate::store::{
    progress_report, progress_step, reset_step, terminal_report, terminal_step, ItemStateStore,
    StoreView,
};

verus! {

/// How one outcome message transforms the store's mathematical state.
pub open spec fn step_store(s: StoreView, msg: WorkerMessage) -> StoreView {
    match msg {
        WorkerMessage::Data(set) => reset_step(s, set.items@.len()),
        WorkerMessage::Progress(t, percent) => progress_step(s, t, percent),
        WorkerMessage::Error(Some(t), _) => terminal_step(s, t),
        WorkerMessage::Error(None, _) => s,
        WorkerMessage::Done(t) => terminal_step(s, t),
    }
}

/// Which result set is active after one outcome message: only `Data`
/// replaces it.
pub open spec fn step_results(results: SearchResponse, msg: WorkerMessage) -> SearchResponse {
    match msg {
        WorkerMessage::Data(set) => set,
        _ => results,
    }
}

/// How one outcome message is classified against the store's state.
pub open spec fn step_report(s: StoreView, msg: WorkerMessage) -> DeliveryReport {
    match msg {
        WorkerMessage::Data(_) => DeliveryReport::NewData,
        WorkerMessage::Progress(t, _) => progress_report(s, t),
        WorkerMessage::Error(Some(t), _) => terminal_report(s, t),
        WorkerMessage::Error(None, _) => DeliveryReport::SearchFailed,
        WorkerMessage::Done(t) => terminal_report(s, t),
    }
}

/// The state owned by the single consumer: the active result set and
/// the per-item states derived from it.  No producer ever touches it;
/// every mutation happens here, in reaction to one drained message.
pub struct Consumer {
    pub results: SearchResponse,
    pub store: ItemStateStore,
}

impl Consumer {
    /// A consumer with no results yet and an empty store.
    pub fn new() -> (c: Consumer)
        ensures
            c.results.items@.len() == 0,
            c.store@.generation == 0,
            c.store@.items.len() == 0,
            c.store@.wf(),
    {
        Consumer { results: SearchResponse::empty(), store: ItemStateStore::new() }
    }

    /// Reflect one drained outcome message into the consumer's state:
    /// `Data` replaces the result set and rebuilds the store; `Done`,
    /// a correlated `Error`, and `Progress` act on their item exactly
    /// when their ticket is current, and are discarded as stale
    /// otherwise; an uncorrelated `Error` reports a failed search and
    /// touches nothing.
    pub fn handle_message(&mut self, msg: WorkerMessage) -> (r: DeliveryReport)
        requires
            old(self).store@.wf(),
            old(self).store@.generation < u64::MAX,
        ensures
            final(self).store@ == step_store(old(self).store@, msg),
            final(self).results == step_results(old(self).results, msg),
            r == step_report(old(self).store@, msg),
            final(self).store@.wf(),
    {
        match msg {
            WorkerMessage::Data(set) => {
                let count = set.items.len();
                self.results = set;
                self.store.reset(count);
                DeliveryReport::NewData
            },
            WorkerMessage::Progress(t, percent) => self.store.deliver_progress(t, percent),
            WorkerMessage::Error(correlation, _description) => {
                match correlation {
                    Some(t) => self.store.deliver_terminal(t),
                    None => DeliveryReport::SearchFailed,
                }
            },
            WorkerMessage::Done(t) => self.store.deliver_terminal(t),
        }
    }

    /// One presentation tick: drain at most one message from the
    /// mailbox and reflect it.  On an empty mailbox nothing changes and
    /// the call returns `None` at once — the tick never waits.
    pub fn tick(&mut self, mailbox: &mut Mailbox) -> (r: Option<DeliveryReport>)
        requires
            old(self).store@.wf(),
            old(self).store@.generation < u64::MAX,
            old(mailbox).wf(),
        ensures
            final(self).store@.wf(),
            final(mailbox).wf(),
            final(mailbox).capacity() == old(mailbox).capacity(),
            final(mailbox).posted() == old(mailbox).posted(),
            old(mailbox).pending().len() == 0 ==> {
                &&& r is None
                &&& *final(self) == *old(self)
                &&& *final(mailbox) == *old(mailbox)
            },
            old(mailbox).pending().len() > 0 ==> {
                &&& r == Some(step_report(old(self).store@, old(mailbox).pending()[0]))
                &&& final(self).store@ == step_store(old(self).store@, old(mailbox).pending()[0])
                &&& final(self).results
                    == step_results(old(self).results, old(mailbox).pending()[0])
                &&& final(mailbox).pending() == old(mailbox).pending().drop_first()
                &&& final(mailbox).delivered()
                    == old(mailbox).delivered().push(old(mailbox).pending()[0])
            },
    {
        match mailbox.poll() {
            None => None,
            Some(msg) => Some(self.handle_message(msg)),
        }
    }
}

} // verus!
