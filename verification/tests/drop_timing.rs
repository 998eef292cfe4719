use std::cell::Cell;
use std::rc::Rc;

use process_owned::{ProcessOwned, ProcessOwnedMut};

struct DropCounter {
    count: Rc<Cell<u32>>,
}

impl Drop for DropCounter {
    fn drop(&mut self) {
        self.count.set(self.count.get() + 1);
    }
}

#[test]
fn destructor_runs_once_at_last_release() {
    let count = Rc::new(Cell::new(0u32));

    {
        let first = ProcessOwned::new(DropCounter { count: Rc::clone(&count) });
        let second = first.clone();
        let third = second.clone();

        drop(first);
        assert_eq!(count.get(), 0);
        drop(third);
        assert_eq!(count.get(), 0);
        drop(second);
        assert_eq!(count.get(), 1);
    }

    assert_eq!(count.get(), 1);
}

#[test]
fn mutable_variant_frees_once_at_last_release() {
    let count = Rc::new(Cell::new(0u32));

    {
        let first = ProcessOwnedMut::new(DropCounter { count: Rc::clone(&count) });
        let second = first.clone();

        drop(second);
        assert_eq!(count.get(), 0);
    }

    assert_eq!(count.get(), 1);
}
