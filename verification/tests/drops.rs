use atomic_mpmc::Channel;
use std::cell::Cell;
use std::mem::forget;

struct Dropper<'a>(&'a Cell<u32>);

impl<'a> Drop for Dropper<'a> {
    fn drop(&mut self) {
        self.0.set(self.0.get() + 1);
    }
}

#[test]
fn test_value_drop() {
    let v = Cell::new(0);

    let mut ch = Channel::<Dropper>::new(10);

    for _ in 0..10 {
        assert!(ch.write(Dropper(&v)).is_ok());
    }

    for _ in 0..3 {
        // Forget 3 values.
        forget(ch.read().unwrap());
    }

    // Release the handle pair and destroy the queue; the 7 values still in
    // occupied slots are dropped with it, once each.
    ch.remove_sender();
    ch.remove_receiver();
    drop(ch);

    assert_eq!(v.get(), 7);
}

#[test]
fn received_value_is_moved_not_copied() {
    let v = Cell::new(0);

    let mut ch = Channel::<Dropper>::new(1);
    assert!(ch.write(Dropper(&v)).is_ok());

    let got = ch.read().unwrap();
    assert_eq!(v.get(), 0);
    drop(got);
    assert_eq!(v.get(), 1);

    ch.remove_sender();
    ch.remove_receiver();
    drop(ch);
    assert_eq!(v.get(), 1);
}
