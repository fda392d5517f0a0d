use atomic_mpmc::iterator::{Iter, Recv, TryIter};
use atomic_mpmc::Channel;

#[test]
fn blocking_iterator_drains_then_ends_on_hang_up() {
    let mut ch = Channel::<u32>::new(2);
    ch.write(1).unwrap();
    ch.write(2).unwrap();
    ch.remove_sender();

    let mut it = Iter::new(ch);
    assert_eq!(it.next(), Some(1));
    assert_eq!(it.next(), Some(2));
    assert_eq!(it.next(), None);
    // Fused: once ended, it stays ended.
    assert_eq!(it.next(), None);
}

#[test]
fn draining_iterator_stops_at_empty() {
    let mut ch = Channel::<u32>::new(2);
    ch.write(1).unwrap();

    let mut it = TryIter::new(ch);
    assert_eq!(it.next(), Some(1));
    // The queue is empty with a live sender: the stream ends,
    assert_eq!(it.next(), None);
    // and stays ended.
    assert_eq!(it.next(), None);
}

#[test]
fn draining_iterator_ends_on_hang_up() {
    let mut ch = Channel::<u32>::new(1);
    ch.write(7).unwrap();
    ch.remove_sender();

    let mut it = TryIter::new(ch);
    assert_eq!(it.next(), Some(7));
    assert_eq!(it.next(), None);
    assert_eq!(it.next(), None);
}

#[test]
fn recv_trait_drives_the_queue() {
    let mut ch = Channel::<u32>::new(2);
    ch.write(4).unwrap();
    ch.write(5).unwrap();

    assert_eq!(Recv::recv(&mut ch).unwrap(), 4);
    assert_eq!(Recv::try_recv(&mut ch).unwrap(), 5);
    assert!(Recv::try_recv(&mut ch).is_err());
}
