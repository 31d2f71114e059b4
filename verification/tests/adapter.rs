use motion_bridge::maybe_app_src::{MaybeAppSrc, MediaSink, States, HANDOVER_BOUND};
use std::cell::RefCell;
use std::rc::Rc;

/// What a sink of the tests has been asked to do.
#[derive(Default)]
struct Journal {
    data: Vec<u8>,
    ended: usize,
}

struct Sink {
    name: u32,
    accepts: bool,
    journal: Rc<RefCell<Journal>>,
}

impl MediaSink for Sink {
    fn push(&self, data: &[u8]) -> bool {
        if self.accepts {
            self.journal.borrow_mut().data.extend_from_slice(data);
        }
        self.accepts
    }

    fn end_of_stream(&self) {
        self.journal.borrow_mut().ended += 1;
    }
}

fn sink(name: u32, accepts: bool) -> (Sink, Rc<RefCell<Journal>>) {
    let journal = Rc::new(RefCell::new(Journal::default()));
    (Sink { name, accepts, journal: journal.clone() }, journal)
}

#[test]
fn new_adapter_has_no_source() {
    let (mut adapter, _tx) = MaybeAppSrc::<Sink>::new_with_tx();
    assert_eq!(adapter.current_state(), None);
    assert!(adapter.try_get_src().is_none());
    assert_eq!(adapter.current_state(), None);
}

#[test]
fn sender_is_bounded() {
    assert_eq!(HANDOVER_BOUND, 3);
    let (_adapter, tx) = MaybeAppSrc::<Sink>::new_with_tx();
    for name in 0..3 {
        assert!(tx.try_send(sink(name, true).0).is_ok());
    }
    assert!(tx.try_send(sink(3, true).0).is_err());
}

#[test]
fn source_is_taken_over_and_reported() {
    let (mut adapter, tx) = MaybeAppSrc::<Sink>::new_with_tx();
    adapter.set_state(Some(States { client_connected: false }));
    tx.try_send(sink(1, true).0).unwrap();
    assert_eq!(adapter.try_get_src().map(|src| src.name), Some(1));
    assert_eq!(adapter.current_state(), Some(States { client_connected: true }));
    // The source stays when nothing more is sent.
    assert_eq!(adapter.try_get_src().map(|src| src.name), Some(1));
}

#[test]
fn last_source_sent_stays() {
    let (mut adapter, tx) = MaybeAppSrc::<Sink>::new_with_tx();
    tx.try_send(sink(1, true).0).unwrap();
    tx.try_send(sink(2, true).0).unwrap();
    tx.try_send(sink(3, true).0).unwrap();
    assert_eq!(adapter.try_get_src().map(|src| src.name), Some(3));
    tx.try_send(sink(4, true).0).unwrap();
    assert_eq!(adapter.try_get_src().map(|src| src.name), Some(4));
}

#[test]
fn source_survives_its_sender() {
    let (mut adapter, tx) = MaybeAppSrc::<Sink>::new_with_tx();
    tx.try_send(sink(1, true).0).unwrap();
    drop(tx);
    assert_eq!(adapter.try_get_src().map(|src| src.name), Some(1));
    assert_eq!(adapter.try_get_src().map(|src| src.name), Some(1));
}

#[test]
fn without_state_object_nothing_is_reported() {
    let (mut adapter, tx) = MaybeAppSrc::<Sink>::new_with_tx();
    tx.try_send(sink(1, false).0).unwrap();
    assert_eq!(adapter.write(&[1, 2, 3]), 3);
    assert_eq!(adapter.current_state(), None);
    assert!(adapter.try_get_src().is_none());
}

#[test]
fn write_without_source_throws_the_data_away() {
    let (mut adapter, _tx) = MaybeAppSrc::<Sink>::new_with_tx();
    adapter.set_state(Some(States { client_connected: false }));
    assert_eq!(adapter.write(&[1, 2, 3, 4]), 4);
    assert_eq!(adapter.write(&[]), 0);
    assert_eq!(adapter.current_state(), Some(States { client_connected: false }));
}

#[test]
fn write_pushes_to_the_source() {
    let (mut adapter, tx) = MaybeAppSrc::<Sink>::new_with_tx();
    adapter.set_state(Some(States { client_connected: false }));
    let (source, journal) = sink(1, true);
    tx.try_send(source).unwrap();
    assert_eq!(adapter.write(&[1, 2]), 2);
    assert_eq!(adapter.write(&[3]), 1);
    assert_eq!(journal.borrow().data, vec![1, 2, 3]);
    assert_eq!(adapter.current_state(), Some(States { client_connected: true }));
    assert!(adapter.try_get_src().is_some());
}

#[test]
fn refusing_source_is_dropped() {
    let (mut adapter, tx) = MaybeAppSrc::<Sink>::new_with_tx();
    adapter.set_state(Some(States { client_connected: false }));
    let (source, journal) = sink(1, false);
    tx.try_send(source).unwrap();
    assert_eq!(adapter.write(&[1, 2]), 2);
    assert!(journal.borrow().data.is_empty());
    assert_eq!(adapter.current_state(), Some(States { client_connected: false }));
    assert!(adapter.try_get_src().is_none());
    // A new source connects the client again.
    let (next, journal) = sink(2, true);
    tx.try_send(next).unwrap();
    assert_eq!(adapter.write(&[9]), 1);
    assert_eq!(journal.borrow().data, vec![9]);
    assert_eq!(adapter.current_state(), Some(States { client_connected: true }));
}

#[test]
fn pushed_keeps_a_source_that_took_the_data() {
    let (mut adapter, _tx) = MaybeAppSrc::<Sink>::new_with_tx();
    adapter.set_state(Some(States { client_connected: false }));
    adapter.attach(sink(1, true).0);
    assert_eq!(adapter.current_state(), Some(States { client_connected: true }));
    adapter.pushed(true);
    assert_eq!(adapter.current_state(), Some(States { client_connected: true }));
    assert_eq!(adapter.try_get_src().map(|src| src.name), Some(1));
    adapter.pushed(false);
    assert_eq!(adapter.current_state(), Some(States { client_connected: false }));
    assert!(adapter.try_get_src().is_none());
}

#[test]
fn stream_error_ends_the_stream_of_the_source() {
    let (mut adapter, tx) = MaybeAppSrc::<Sink>::new_with_tx();
    let (source, journal) = sink(1, true);
    tx.try_send(source).unwrap();
    adapter.on_stream_error();
    assert_eq!(journal.borrow().ended, 1);
    assert!(journal.borrow().data.is_empty());
    adapter.on_stream_error();
    assert_eq!(journal.borrow().ended, 2);
    assert!(adapter.try_get_src().is_some());
}

#[test]
fn stream_error_without_source_does_nothing() {
    let (mut adapter, _tx) = MaybeAppSrc::<Sink>::new_with_tx();
    adapter.set_state(Some(States { client_connected: false }));
    adapter.on_stream_error();
    assert_eq!(adapter.current_state(), Some(States { client_connected: false }));
    assert!(adapter.try_get_src().is_none());
}

#[test]
fn states_record_what_they_are_told() {
    let mut states = States { client_connected: false };
    states.set_client_connected(true);
    assert!(states.client_connected);
    states.set_client_connected(false);
    assert!(!states.client_connected);
}

#[test]
fn flush_has_nothing_to_do() {
    let (mut adapter, tx) = MaybeAppSrc::<Sink>::new_with_tx();
    let (source, journal) = sink(1, true);
    tx.try_send(source).unwrap();
    adapter.write(&[5]);
    adapter.flush();
    assert_eq!(journal.borrow().data, vec![5]);
    assert_eq!(journal.borrow().ended, 0);
}
