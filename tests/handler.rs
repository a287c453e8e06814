use uart_driver::handler::{init, DeviceAction, HandlerImpl, Protected, Reply, Request};
use uart_driver::rx_buffer::{RxBuffer, RX_CAPACITY};

fn get_char(h: &mut HandlerImpl) -> Reply {
    let p = h.protected(Some(Request::GetChar));
    assert_eq!(p.transmit, None);
    p.reply
}

/// Runs one interrupt while the hardware holds `avail`; returns how many bytes
/// were read and whether the client was signalled.
fn interrupt(h: &mut HandlerImpl, avail: &[u8]) -> (usize, bool) {
    let mut i = 0;
    loop {
        let got = avail.get(i).copied();
        if got.is_some() {
            i += 1;
        }
        match h.notified(got) {
            DeviceAction::ReadNext => {}
            DeviceAction::Finish { notify } => return (i, notify),
        }
    }
}

#[test]
fn startup_state() {
    let h = init();
    assert_eq!(h.buffered(), 0);
    assert!(h.notify_pending());
}

#[test]
fn scenario_interrupt_receive_interrupt() {
    let mut h = init();
    let (read, notified) = interrupt(&mut h, &[0x61, 0x62, 0x63]);
    assert_eq!(read, 3);
    assert!(notified);
    assert!(!h.notify_pending());
    assert_eq!(h.buffered(), 3);

    assert_eq!(get_char(&mut h), Reply::GetChar { val: Some(0x61) });
    assert_eq!(h.buffered(), 2);
    assert!(h.notify_pending());

    let (read, notified) = interrupt(&mut h, &[]);
    assert_eq!(read, 0);
    assert!(notified);
    assert!(!h.notify_pending());

    assert_eq!(get_char(&mut h), Reply::GetChar { val: Some(0x62) });
    assert_eq!(get_char(&mut h), Reply::GetChar { val: Some(0x63) });
    assert_eq!(get_char(&mut h), Reply::GetChar { val: None });
}

#[test]
fn buffer_keeps_first_bytes_and_drops_the_rest() {
    let mut h = init();
    let bytes: Vec<u8> = (0..300u32).map(|i| (i % 251) as u8).collect();
    // The first interrupt stops at the byte that finds the buffer full.
    let (read, notified) = interrupt(&mut h, &bytes);
    assert_eq!(read, RX_CAPACITY + 1);
    assert!(notified);
    assert_eq!(h.buffered(), RX_CAPACITY);
    // The rest arrive in later interrupts and are dropped one at a time.
    for &b in &bytes[RX_CAPACITY + 1..] {
        let (read, notified) = interrupt(&mut h, &[b]);
        assert_eq!(read, 1);
        assert!(!notified);
        assert_eq!(h.buffered(), RX_CAPACITY);
    }
    for &b in &bytes[..RX_CAPACITY] {
        assert_eq!(get_char(&mut h), Reply::GetChar { val: Some(b) });
    }
    assert_eq!(get_char(&mut h), Reply::GetChar { val: None });
}

#[test]
fn full_buffer_ends_drain() {
    let mut h = init();
    for i in 0..RX_CAPACITY {
        assert_eq!(h.notified(Some(i as u8)), DeviceAction::ReadNext);
    }
    assert_eq!(h.notified(Some(7)), DeviceAction::Finish { notify: true });
    assert_eq!(h.buffered(), RX_CAPACITY);
    assert!(!h.notify_pending());
}

#[test]
fn pops_follow_push_order() {
    let mut h = init();
    let (read, _) = interrupt(&mut h, &[9, 8, 7]);
    assert_eq!(read, 3);
    let (read, _) = interrupt(&mut h, &[6, 5]);
    assert_eq!(read, 2);
    for b in [9u8, 8, 7, 6, 5] {
        assert_eq!(get_char(&mut h), Reply::GetChar { val: Some(b) });
    }
}

#[test]
fn notification_is_edge_triggered() {
    let mut h = init();
    assert_eq!(h.notified(None), DeviceAction::Finish { notify: true });
    assert_eq!(h.notified(None), DeviceAction::Finish { notify: false });
    let (_, notified) = interrupt(&mut h, &[1, 2]);
    assert!(!notified);
    assert_eq!(get_char(&mut h), Reply::GetChar { val: Some(1) });
    let (_, notified) = interrupt(&mut h, &[3]);
    assert!(notified);
    let (_, notified) = interrupt(&mut h, &[4]);
    assert!(!notified);
}

#[test]
fn transmit_passes_byte_through() {
    let mut h = init();
    let _ = interrupt(&mut h, &[1]);
    let p = h.protected(Some(Request::PutChar { val: 0x41 }));
    assert_eq!(p, Protected { transmit: Some(0x41), reply: Reply::Empty });
    assert_eq!(h.buffered(), 1);
    assert!(!h.notify_pending());
}

#[test]
fn empty_receive_still_arms() {
    let mut h = init();
    assert_eq!(h.notified(None), DeviceAction::Finish { notify: true });
    assert!(!h.notify_pending());
    assert_eq!(get_char(&mut h), Reply::GetChar { val: None });
    assert!(h.notify_pending());
    assert_eq!(h.buffered(), 0);
}

#[test]
fn malformed_request_changes_nothing() {
    let mut h = init();
    let _ = interrupt(&mut h, &[10, 20]);
    assert!(!h.notify_pending());
    let p = h.protected(None);
    assert_eq!(p, Protected { transmit: None, reply: Reply::UnspecifiedError });
    assert_eq!(h.buffered(), 2);
    assert!(!h.notify_pending());
    assert_eq!(get_char(&mut h), Reply::GetChar { val: Some(10) });
}

#[test]
fn rx_buffer_push_pop() {
    let mut b = RxBuffer::new();
    assert_eq!(b.len(), 0);
    assert_eq!(b.pop_front(), None);
    assert!(b.push_back(3));
    assert!(b.push_back(4));
    assert_eq!(b.len(), 2);
    assert_eq!(b.pop_front(), Some(3));
    assert_eq!(b.pop_front(), Some(4));
    assert_eq!(b.pop_front(), None);
}

#[test]
fn rx_buffer_refuses_when_full() {
    let mut b = RxBuffer::new();
    for i in 0..RX_CAPACITY {
        assert!(b.push_back(i as u8));
    }
    assert!(!b.push_back(0xff));
    assert_eq!(b.len(), RX_CAPACITY);
    assert_eq!(b.pop_front(), Some(0));
    assert!(b.push_back(0xff));
    assert_eq!(b.len(), RX_CAPACITY);
}
