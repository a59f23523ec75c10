use core::convert::identity;
use std::cell::RefCell;
use std::rc::Rc;

use own_ref::{slot, slots, OwnRef, Slot};

/// A value with an observable destructor effect: dropping it records its id.
struct Guard {
    id: i64,
    log: Rc<RefCell<Vec<i64>>>,
}

impl Drop for Guard {
    fn drop(&mut self) {
        self.log.borrow_mut().push(self.id);
    }
}

fn new_log() -> Rc<RefCell<Vec<i64>>> {
    Rc::new(RefCell::new(Vec::new()))
}

fn guard(log: &Rc<RefCell<Vec<i64>>>, id: i64) -> Guard {
    Guard { id, log: Rc::clone(log) }
}

#[test]
fn robust_way() {
    let storage = &mut slot();
    {
        let _o: OwnRef<'_, _> = identity(storage.holding(String::from("…")));
    }
}

#[test]
fn exactly_once_destruction() {
    let log = new_log();
    {
        let storage = &mut slot();
        let o = storage.holding(guard(&log, 42));
        assert_eq!(log.borrow().len(), 0);
        drop(o);
        assert_eq!(*log.borrow(), vec![42]);
    }
    assert_eq!(*log.borrow(), vec![42]);
}

#[test]
fn exactly_once_extraction() {
    let log = new_log();
    let storage = &mut slot();
    let o = storage.holding(guard(&log, 5));
    let extracted = o.deref_move();
    assert_eq!(log.borrow().len(), 0);
    drop(extracted);
    assert_eq!(*log.borrow(), vec![5]);
}

#[test]
fn cell_reuse_scenario() {
    let log = new_log();
    let storage = &mut slot();
    let h = storage.holding(guard(&log, 42));
    drop(h);
    assert_eq!(*log.borrow(), vec![42]);
    let h2 = storage.holding(guard(&log, 7));
    drop(h2);
    assert_eq!(*log.borrow(), vec![42, 7]);
}

#[test]
fn deref_and_deref_mut() {
    let storage = &mut slot();
    let mut o = storage.holding(10u64);
    assert_eq!(*o.deref(), 10);
    *o.deref_mut() = 11;
    assert_eq!(*o.deref(), 11);
    assert_eq!(o.deref_move(), 11);
}

#[test]
fn with_scoped() {
    let x: i32 = OwnRef::with(String::from("…"), |o| {
        assert_eq!(&o.deref()[..], "…");
        42
    });
    assert_eq!(x, 42);
}

#[test]
fn slots_batch() {
    let (a, b, c) = &mut slots();
    let ha = a.holding(1u64);
    let hb = b.holding(String::from("two"));
    let hc = c.holding(true);
    assert_eq!(ha.deref_move(), 1);
    assert_eq!(hb.deref_move(), "two");
    assert_eq!(hc.deref_move(), true);
    let again = a.holding(3u64);
    assert_eq!(again.deref_move(), 3);
}

#[test]
fn empty_slots_tuple() {
    let _nothing: () = slots();
    let mut single: (Slot<u8>,) = slots();
    assert_eq!(single.0.holding(9u8).deref_move(), 9);
}
