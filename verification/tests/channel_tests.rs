use coop_kernel::channel::Channel;
use coop_kernel::executor::{Fault, Kernel};
use coop_kernel::future::Poll;

#[test]
fn send_then_receive_yields_the_sent_item() {
    let mut ch: Channel<u32> = Channel::new();
    let mut k = Kernel::new();
    let sender = ch.get_sender();
    let receiver = ch.get_receiver();
    sender.send(&mut ch, &mut k, Some(7));
    assert_eq!(receiver.receive(&mut ch), Some(7));
    // A second receive with nothing sent in between yields nothing.
    assert_eq!(receiver.receive(&mut ch), None);
}

#[test]
fn send_overwrites_the_slot() {
    let mut ch: Channel<u32> = Channel::new();
    let mut k = Kernel::new();
    let sender = ch.get_sender();
    sender.send(&mut ch, &mut k, Some(1));
    sender.send(&mut ch, &mut k, Some(2));
    assert_eq!(ch.receive(), Some(2));
}

#[test]
fn receiver_pends_until_a_send_then_takes_the_item() {
    let mut ch: Channel<u32> = Channel::new();
    let mut k = Kernel::new();
    let sender = ch.get_sender();
    let mut receiver = ch.get_receiver();
    // First poll registers and suspends; polling again while nothing has
    // been sent stays pending, however often.
    assert!(matches!(receiver.poll(&mut ch, &mut k, 1), Poll::Pending));
    assert!(matches!(receiver.poll(&mut ch, &mut k, 1), Poll::Pending));
    assert!(matches!(receiver.poll(&mut ch, &mut k, 1), Poll::Pending));
    sender.send(&mut ch, &mut k, Some(42));
    match receiver.poll(&mut ch, &mut k, 1) {
        Poll::Ready(v) => assert_eq!(v, 42),
        Poll::Pending => panic!("receiver did not observe the sent item"),
    }
}

#[test]
fn send_wakes_the_registered_receiver() {
    let mut ch: Channel<u32> = Channel::new();
    let mut k = Kernel::new();
    let sender = ch.get_sender();
    let mut receiver = ch.get_receiver();
    let _ = receiver.poll(&mut ch, &mut k, 1);
    assert_eq!(k.next_ready(2), None);
    sender.send(&mut ch, &mut k, Some(9));
    assert_eq!(k.next_ready(2), Some(1));
}

#[test]
fn waking_into_a_full_ready_queue_is_fatal() {
    let mut ch: Channel<u32> = Channel::new();
    let mut k = Kernel::new();
    let mut receiver = ch.get_receiver();
    let _ = receiver.poll(&mut ch, &mut k, 1);
    for _ in 0..4 {
        k.wake_task(0);
    }
    assert_eq!(k.fault, None);
    ch.get_sender().send(&mut ch, &mut k, Some(5));
    assert_eq!(k.fault, Some(Fault::ReadyQueueFull(1)));
}

#[test]
fn a_second_registration_overwrites_the_first() {
    let mut ch: Channel<u32> = Channel::new();
    let mut k = Kernel::new();
    let sender = ch.get_sender();
    // Two receivers register in turn: the last registration wins, so the
    // send wakes only the second task id.
    let mut first = ch.get_receiver();
    let mut second = ch.get_receiver();
    let _ = first.poll(&mut ch, &mut k, 1);
    let _ = second.poll(&mut ch, &mut k, 2);
    sender.send(&mut ch, &mut k, Some(8));
    assert_eq!(k.next_ready(3), Some(2));
    assert_eq!(k.next_ready(3), None);
}
