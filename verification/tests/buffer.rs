use std::cell::RefCell;
use std::rc::Rc;

use try_from_iter::partial_array::PartialArray;

struct Guard {
    index: usize,
    log: Rc<RefCell<Vec<usize>>>,
}

impl Drop for Guard {
    fn drop(&mut self) {
        self.log.borrow_mut().push(self.index);
    }
}

fn guard(index: usize, log: &Rc<RefCell<Vec<usize>>>) -> Guard {
    Guard { index, log: Rc::clone(log) }
}

#[test]
fn exact_boundary_push() {
    let mut partial = PartialArray::<i32, 3>::new();
    partial.push(1);
    assert!(!partial.full());
    partial.push(2);
    assert!(!partial.full());
    partial.push(3);
    assert!(partial.full());
    assert_eq!(partial.into_array(), [1, 2, 3]);
}

#[test]
fn fresh_buffer_not_full() {
    let small = PartialArray::<i32, 1>::new();
    assert!(!small.full());
    let large = PartialArray::<String, 5>::new();
    assert!(!large.full());
}

#[test]
fn abandoned_fresh_buffer_destructs_nothing() {
    let log: Rc<RefCell<Vec<usize>>> = Rc::new(RefCell::new(vec![]));
    let partial = PartialArray::<Guard, 3>::new();
    drop(partial);
    assert!(log.borrow().is_empty());
}

#[test]
fn partial_array_drop() {
    let log = Rc::new(RefCell::new(vec![]));
    let mut partial = PartialArray::<Guard, 3>::new();
    partial.push(guard(0, &log));
    partial.push(guard(1, &log));
    partial.push(guard(2, &log));
    let array = partial.into_array();
    assert!(log.borrow().is_empty());
    drop(array);
    assert_eq!(&*log.borrow(), &[0, 1, 2]);
}

#[test]
fn partial_abandonment_destructs_prefix() {
    let log = Rc::new(RefCell::new(vec![]));
    let mut partial = PartialArray::<Guard, 3>::new();
    partial.push(guard(0, &log));
    partial.push(guard(1, &log));
    drop(partial);
    assert_eq!(&*log.borrow(), &[0, 1]);
}
