use easyjack::Notification;
use easyjack::NotificationQueue;
use easyjack::PortConnectStatus;
use easyjack::SendOutcome;

#[test]
fn queue_starts_empty_with_fixed_capacity() {
    let q: NotificationQueue<u32> = NotificationQueue::new(3);
    assert_eq!(q.capacity(), 3);
    assert_eq!(q.len(), 0);
}

#[test]
fn send_beyond_capacity_delivers_capacity_and_drops_excess() {
    let cap = 2;
    let m = 5;
    let mut q: NotificationQueue<u32> = NotificationQueue::new(cap);
    let mut delivered = 0;
    let mut dropped = 0;
    for msg in 0..m {
        match q.send(msg) {
            SendOutcome::Delivered => delivered += 1,
            SendOutcome::Dropped => dropped += 1,
        }
    }
    assert_eq!(delivered, cap);
    assert_eq!(dropped, m as usize - cap);
    // the messages that got through are the first `cap`, in order, unaltered
    assert_eq!(q.try_recv(), Some(0));
    assert_eq!(q.try_recv(), Some(1));
    assert_eq!(q.try_recv(), None);
}

#[test]
fn recv_on_empty_is_none() {
    let mut q: NotificationQueue<u32> = NotificationQueue::new(1);
    assert_eq!(q.try_recv(), None);
    q.send(11);
    assert_eq!(q.try_recv(), Some(11));
    assert_eq!(q.try_recv(), None);
}

#[test]
fn queue_keeps_send_order() {
    let mut q: NotificationQueue<Notification> = NotificationQueue::new(4);
    q.send(Notification::SampleRate(44100));
    q.send(Notification::PortConnection(1, 2, PortConnectStatus::PortsConnected));
    q.send(Notification::PortConnection(1, 2, PortConnectStatus::PortsDisconnected));
    assert_eq!(q.try_recv(), Some(Notification::SampleRate(44100)));
    assert_eq!(
        q.try_recv(),
        Some(Notification::PortConnection(1, 2, PortConnectStatus::PortsConnected))
    );
    assert_eq!(
        q.try_recv(),
        Some(Notification::PortConnection(1, 2, PortConnectStatus::PortsDisconnected))
    );
    assert_eq!(q.try_recv(), None);
}

#[test]
fn room_made_by_receiving_can_be_used_again() {
    let mut q: NotificationQueue<u32> = NotificationQueue::new(1);
    assert_eq!(q.send(1), SendOutcome::Delivered);
    assert_eq!(q.send(2), SendOutcome::Dropped);
    assert_eq!(q.try_recv(), Some(1));
    assert_eq!(q.send(3), SendOutcome::Delivered);
    assert_eq!(q.try_recv(), Some(3));
}
