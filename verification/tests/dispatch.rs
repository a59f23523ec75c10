use std::cell::RefCell;
use std::rc::Rc;

use own_ref::{slot, AnyValue, OwnRef};

/// A value with an observable destructor effect: dropping it records its id.
struct Token {
    id: i64,
    log: Rc<RefCell<Vec<i64>>>,
}

impl Drop for Token {
    fn drop(&mut self) {
        self.log.borrow_mut().push(self.id);
    }
}

fn new_log() -> Rc<RefCell<Vec<i64>>> {
    Rc::new(RefCell::new(Vec::new()))
}

fn token(log: &Rc<RefCell<Vec<i64>>>, id: i64) -> Token {
    Token { id, log: Rc::clone(log) }
}

#[test]
fn dispatch_arity_0_moves_capture_out() {
    let s = String::from("not copy");
    let storage = &mut slot();
    let o = storage.holding(move || s);
    let s: String = o.call_ownref_0();
    assert_eq!(s, "not copy");
}

#[test]
fn dispatch_arity_1_same_as_direct_call() {
    let f = |x: i64| x * 2;
    let direct: i64 = f(21);
    let storage = &mut slot();
    let via_handle: i64 = storage.holding(f).call_ownref_1(21);
    assert_eq!(via_handle, direct);
    assert_eq!(via_handle, 42);
}

#[test]
fn dispatch_arity_2() {
    let s = String::from("not copy");
    let storage = &mut slot();
    let o = storage.holding(|x: i32, y: u8| {
        assert_eq!(x, 42);
        assert_eq!(y, 27);
        s
    });
    let s: String = o.call_ownref_2(42, 27);
    assert_eq!(s, "not copy");
}

#[test]
fn dispatch_arity_bound() {
    let f = |a: i64, b: i64, c: i64| a + b + c;
    let direct: i64 = f(1, 2, 3);
    let storage = &mut slot();
    let via_handle: i64 = storage.holding(f).call_ownref_3(1, 2, 3);
    assert_eq!(via_handle, direct);
    assert_eq!(via_handle, 6);
}

#[test]
fn dispatch_consumes_capture_exactly_once() {
    let log = new_log();
    let moved_in = token(&log, 1);
    let storage = &mut slot();
    let o = storage.holding(move || drop(moved_in));
    assert_eq!(log.borrow().len(), 0);
    o.call_ownref_0();
    assert_eq!(*log.borrow(), vec![1]);
}

#[test]
fn dropping_uninvoked_callable_runs_its_capture_destructor() {
    let log = new_log();
    let moved_in = token(&log, 2);
    let storage = &mut slot();
    let o = storage.holding(move || drop(moved_in));
    drop(o);
    assert_eq!(*log.borrow(), vec![2]);
}

#[test]
fn downcast_roundtrip() {
    let storage = &mut slot();
    let erased = storage.holding(42i64).unsize::<AnyValue>();
    match erased.downcast::<i64>() {
        Ok(back) => assert_eq!(back.deref_move(), 42),
        Err(_) => panic!("tag comparison must succeed for the erased type"),
    }
}

#[test]
fn downcast_mismatch_returns_original() {
    let storage = &mut slot();
    let erased = storage.holding(String::from("…")).unsize::<AnyValue>();
    let original = match erased.downcast::<i64>() {
        Ok(_) => panic!("a text is not an integer"),
        Err(unchanged) => unchanged,
    };
    match original.downcast::<String>() {
        Ok(back) => assert_eq!(back.deref_move(), "…"),
        Err(_) => panic!("the original handle must still hold the text"),
    }
}

#[test]
fn widening_preserves_value() {
    let storage = &mut slot();
    let erased = storage.holding(5i64).unsize::<AnyValue>();
    assert!(matches!(erased.deref(), AnyValue::Int(5)));
    assert!(matches!(erased.deref_move(), AnyValue::Int(5)));
}
