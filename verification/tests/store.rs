use ytcore::message::{DeliveryReport, Ticket};
use ytcore::store::ItemStateStore;

#[test]
fn fresh_store_is_empty() {
    let s = ItemStateStore::new();
    assert_eq!(s.len(), 0);
    assert_eq!(s.generation(), 0);
}

#[test]
fn reset_creates_enabled_items() {
    let mut s = ItemStateStore::new();
    s.reset(3);
    assert_eq!(s.len(), 3);
    assert_eq!(s.generation(), 1);
    for i in 0..3 {
        assert!(s.is_enabled(i));
        assert_eq!(s.progress_of(i), 0);
    }
}

#[test]
fn dispatch_disables_item() {
    let mut s = ItemStateStore::new();
    s.reset(3);
    let t = s.dispatch(1);
    assert_eq!(t, Ticket { generation: 1, index: 1 });
    assert!(!s.is_enabled(1));
    assert!(s.is_enabled(0));
    assert!(s.is_enabled(2));
}

#[test]
fn second_dispatch_not_permitted_while_disabled() {
    let mut s = ItemStateStore::new();
    s.reset(2);
    let t = s.dispatch(1);
    // The dispatch site's guard: while the item is Disabled, a second
    // dispatch for the same index must not be issued.
    assert!(!s.is_enabled(1));
    assert_eq!(s.deliver_terminal(t), DeliveryReport::Reenabled);
    // Only the terminal outcome restores permission.
    assert!(s.is_enabled(1));
}

#[test]
fn terminal_done_reenables() {
    let mut s = ItemStateStore::new();
    s.reset(3);
    let t = s.dispatch(2);
    assert_eq!(s.deliver_terminal(t), DeliveryReport::Reenabled);
    assert!(s.is_enabled(2));
}

#[test]
fn correlated_error_reenables() {
    let mut s = ItemStateStore::new();
    s.reset(3);
    let t = s.dispatch(0);
    // An error outcome must not leave the item stranded in Disabled.
    assert_eq!(s.deliver_terminal(t), DeliveryReport::Reenabled);
    assert!(s.is_enabled(0));
}

#[test]
fn progress_updates_without_state_change() {
    let mut s = ItemStateStore::new();
    s.reset(3);
    let t = s.dispatch(1);
    assert_eq!(s.deliver_progress(t, 30), DeliveryReport::ProgressUpdated);
    assert!(!s.is_enabled(1));
    assert_eq!(s.progress_of(1), 30);
    assert_eq!(s.deliver_terminal(t), DeliveryReport::Reenabled);
    assert!(s.is_enabled(1));
    assert_eq!(s.progress_of(1), 30);
}

#[test]
fn reset_discards_previous_states() {
    let mut s = ItemStateStore::new();
    s.reset(3);
    let t = s.dispatch(1);
    assert_eq!(s.deliver_progress(t, 70), DeliveryReport::ProgressUpdated);
    s.reset(2);
    assert_eq!(s.len(), 2);
    assert_eq!(s.generation(), 2);
    for i in 0..2 {
        assert!(s.is_enabled(i));
        assert_eq!(s.progress_of(i), 0);
    }
}

#[test]
fn superseded_ticket_is_stale() {
    let mut s = ItemStateStore::new();
    s.reset(3);
    let old_ticket = s.dispatch(1);
    s.reset(3);
    let new_ticket = s.dispatch(1);
    // The outcome of the old set's download arrives late: discarded,
    // and the new set's item 1 stays Disabled for its own download.
    assert_eq!(s.deliver_terminal(old_ticket), DeliveryReport::Stale);
    assert!(!s.is_enabled(1));
    assert_eq!(s.deliver_terminal(new_ticket), DeliveryReport::Reenabled);
    assert!(s.is_enabled(1));
}

#[test]
fn never_dispatched_outcome_is_stale() {
    let mut s = ItemStateStore::new();
    s.reset(3);
    let phantom = Ticket { generation: 1, index: 0 };
    assert_eq!(s.deliver_terminal(phantom), DeliveryReport::Stale);
    assert!(s.is_enabled(0));
    assert_eq!(s.progress_of(0), 0);
}

#[test]
fn out_of_range_ticket_is_stale() {
    let mut s = ItemStateStore::new();
    s.reset(2);
    let beyond = Ticket { generation: 1, index: 5 };
    assert_eq!(s.deliver_terminal(beyond), DeliveryReport::Stale);
    assert_eq!(s.deliver_progress(beyond, 50), DeliveryReport::Stale);
    assert_eq!(s.len(), 2);
}
