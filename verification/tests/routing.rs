use std::cell::Cell;
use std::rc::Rc;

use ws_push::context::NewConnectionContext;
use ws_push::id::ConnectionIdGenerator;
use ws_push::route::{accept_upgrade, str_equal};

#[derive(Clone)]
struct CountingFactory {
    built: Rc<Cell<u64>>,
}

struct Handler {
    serial: u64,
}

impl NewConnectionContext for CountingFactory {
    type Instance = Handler;

    fn new_connection_context(&self) -> Handler {
        let serial = self.built.get() + 1;
        self.built.set(serial);
        Handler { serial }
    }
}

fn counting_factory() -> CountingFactory {
    CountingFactory { built: Rc::new(Cell::new(0)) }
}

#[test]
fn matching_upgrade_mints_id_and_fresh_handler() {
    let mut generator = ConnectionIdGenerator::new();
    let factory = counting_factory();
    let accepted = accept_upgrade("chat", "chat", true, &mut generator, &factory);
    let (id, handler) = accepted.expect("matching upgrade request is accepted");
    assert_eq!(id.value(), 1);
    assert_eq!(handler.serial, 1);
    assert_eq!(factory.built.get(), 1);
}

#[test]
fn sequential_upgrades_get_distinct_ids_and_distinct_handlers() {
    let mut generator = ConnectionIdGenerator::new();
    let factory = counting_factory();
    let (id_a, handler_a) =
        accept_upgrade("chat", "chat", true, &mut generator, &factory).expect("first accepted");
    let (id_b, handler_b) =
        accept_upgrade("chat", "chat", true, &mut generator, &factory).expect("second accepted");
    assert_ne!(id_a, id_b);
    assert_ne!(handler_a.serial, handler_b.serial);
    assert_eq!(factory.built.get(), 2);
}

#[test]
fn non_matching_path_passes_through_untouched() {
    let mut generator = ConnectionIdGenerator::new();
    let factory = counting_factory();
    let ignored = accept_upgrade("chat", "metrics", true, &mut generator, &factory);
    assert!(ignored.is_none());
    assert_eq!(factory.built.get(), 0, "factory must not be invoked");
    // The generator was not advanced either: the next accepted request still
    // gets the first identifier.
    let (id, _) = accept_upgrade("chat", "chat", true, &mut generator, &factory)
        .expect("matching request accepted");
    assert_eq!(id.value(), 1);
}

#[test]
fn request_without_upgrade_is_not_dispatched() {
    let mut generator = ConnectionIdGenerator::new();
    let factory = counting_factory();
    let ignored = accept_upgrade("chat", "chat", false, &mut generator, &factory);
    assert!(ignored.is_none());
    assert_eq!(factory.built.get(), 0);
}

#[test]
fn str_equal_compares_character_sequences() {
    assert!(str_equal("chat", "chat"));
    assert!(str_equal("", ""));
    assert!(!str_equal("chat", "chats"));
    assert!(!str_equal("chat", "chap"));
    assert!(!str_equal("chat", ""));
}
