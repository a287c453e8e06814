//! Properties of the event core over sequences of events.
use vstd::prelude::*;
use crate::handler::{device_step, request_step, DeviceAction, HandlerState, Protected, Reply, Request};
use crate::rx_buffer::RX_CAPACITY;

verus! {

/// The state after a run of hardware reads, with no client request between
/// them (interrupt boundaries included: each read is one `device_step`).
pub open spec fn run_device(s: HandlerState, reads: Seq<Option<u8>>) -> HandlerState
    decreases reads.len(),
{
    if reads.len() == 0 {
        s
    } else {
        run_device(device_step(s, reads[0]).0, reads.drop_first())
    }
}

/// The bytes that a run of hardware reads delivered, in order.
pub open spec fn delivered(reads: Seq<Option<u8>>) -> Seq<u8>
    decreases reads.len(),
{
    if reads.len() == 0 {
        Seq::empty()
    } else {
        match reads[0] {
            Some(b) => seq![b] + delivered(reads.drop_first()),
            None => delivered(reads.drop_first()),
        }
    }
}

/// The first `RX_CAPACITY` bytes of `bs`, or all of them when fewer.
pub open spec fn capped(bs: Seq<u8>) -> Seq<u8> {
    if bs.len() <= RX_CAPACITY {
        bs
    } else {
        bs.take(RX_CAPACITY as int)
    }
}

/// One whole interrupt, while the hardware holds `avail`: the state after it,
/// and whether it signalled the client.
pub open spec fn interrupt(s: HandlerState, avail: Seq<u8>) -> (HandlerState, bool)
    decreases avail.len(),
{
    let got = if avail.len() == 0 { None } else { Some(avail[0]) };
    let (t, a) = device_step(s, got);
    match a {
        DeviceAction::ReadNext => if avail.len() == 0 { (t, false) } else { interrupt(t, avail.drop_first()) },
        DeviceAction::Finish { notify } => (t, notify),
    }
}

/// The replies to `n` `GetChar` requests in a row, and the state after them.
pub open spec fn get_chars(s: HandlerState, n: nat) -> (HandlerState, Seq<Reply>)
    decreases n,
{
    if n == 0 {
        (s, Seq::empty())
    } else {
        let (t, p) = request_step(s, Some(Request::GetChar));
        let (u, rs) = get_chars(t, (n - 1) as nat);
        (u, seq![p.reply] + rs)
    }
}

/// Whatever a run of hardware reads delivers, the buffer ends up holding what
/// it held followed by the delivered bytes, cut at the capacity: bytes that
/// arrive while it is full are dropped, and order is kept. In particular, from
/// an empty buffer, more bytes than the capacity leave exactly the first
/// `RX_CAPACITY` of them.
pub proof fn lemma_buffer_bound(s: HandlerState, reads: Seq<Option<u8>>)
    requires
        s.buffer.len() <= RX_CAPACITY,
    ensures
        run_device(s, reads).buffer == capped(s.buffer + delivered(reads)),
        s.buffer.len() == 0 && delivered(reads).len() > RX_CAPACITY ==> run_device(s, reads).buffer
            == delivered(reads).take(RX_CAPACITY as int),
    decreases reads.len(),
{
    lemma_buffer_bound_rec(s, reads);
    if s.buffer.len() == 0 {
        assert(s.buffer + delivered(reads) =~= delivered(reads));
    }
}

proof fn lemma_buffer_bound_rec(s: HandlerState, reads: Seq<Option<u8>>)
    requires
        s.buffer.len() <= RX_CAPACITY,
    ensures
        run_device(s, reads).buffer == capped(s.buffer + delivered(reads)),
    decreases reads.len(),
{
    if reads.len() == 0 {
        assert(s.buffer + delivered(reads) =~= s.buffer);
    } else {
        let t = device_step(s, reads[0]).0;
        let rest = reads.drop_first();
        lemma_buffer_bound_rec(t, rest);
        match reads[0] {
            Some(b) => {
                if s.buffer.len() < RX_CAPACITY {
                    assert(t.buffer + delivered(rest) =~= s.buffer + delivered(reads));
                } else {
                    let all = s.buffer + delivered(reads);
                    assert(capped(all) =~= s.buffer);
                    assert(capped(t.buffer + delivered(rest)) =~= s.buffer);
                }
            },
            None => {
                assert(delivered(reads) == delivered(rest));
            },
        }
    }
}

/// Bytes pushed with no overflow come back out of `GetChar` requests in the
/// order they were pushed.
pub proof fn lemma_fifo(s: HandlerState, bytes: Seq<u8>)
    requires
        s.buffer.len() == 0,
        bytes.len() <= RX_CAPACITY,
    ensures
        get_chars(run_device(s, bytes.map_values(|b: u8| Some(b))), bytes.len()).1
            == bytes.map_values(|b: u8| Reply::GetChar { val: Some(b) }),
{
    let reads = bytes.map_values(|b: u8| Some(b));
    lemma_delivered_all(bytes);
    lemma_buffer_bound(s, reads);
    assert(s.buffer + bytes =~= bytes);
    lemma_get_chars(run_device(s, reads), bytes);
}

proof fn lemma_delivered_all(bytes: Seq<u8>)
    ensures
        delivered(bytes.map_values(|b: u8| Some(b))) == bytes,
    decreases bytes.len(),
{
    let reads = bytes.map_values(|b: u8| Some(b));
    if bytes.len() > 0 {
        let rest = bytes.drop_first();
        assert(reads.drop_first() =~= rest.map_values(|b: u8| Some(b)));
        lemma_delivered_all(rest);
        assert(seq![bytes[0]] + rest =~= bytes);
    } else {
        assert(bytes =~= Seq::<u8>::empty());
    }
}

proof fn lemma_get_chars(s: HandlerState, bytes: Seq<u8>)
    requires
        s.buffer == bytes,
    ensures
        get_chars(s, bytes.len()).1 == bytes.map_values(|b: u8| Reply::GetChar { val: Some(b) }),
    decreases bytes.len(),
{
    let want = bytes.map_values(|b: u8| Reply::GetChar { val: Some(b) });
    if bytes.len() == 0 {
        assert(want =~= Seq::<Reply>::empty());
    } else {
        let t = request_step(s, Some(Request::GetChar)).0;
        let rest = bytes.drop_first();
        lemma_get_chars(t, rest);
        assert(want =~= seq![Reply::GetChar { val: Some(bytes[0]) }] + rest.map_values(
            |b: u8| Reply::GetChar { val: Some(b) },
        ));
    }
}

/// An armed flag makes the next interrupt signal the client once and clears
/// the flag; with the flag clear, an interrupt signals nothing and leaves it
/// clear, so no further signal comes until a `GetChar` re-arms it.
pub proof fn lemma_edge_trigger(s: HandlerState, avail: Seq<u8>)
    ensures
        s.notify ==> interrupt(s, avail) == (HandlerState { buffer: interrupt(s, avail).0.buffer, notify: false }, true),
        !s.notify ==> interrupt(s, avail) == (HandlerState { buffer: interrupt(s, avail).0.buffer, notify: false }, false),
    decreases avail.len(),
{
    if avail.len() > 0 {
        let t = device_step(s, Some(avail[0])).0;
        lemma_edge_trigger(t, avail.drop_first());
    }
}

/// The state after a run of interrupts with no client request between them,
/// and how many of them signalled the client.
pub open spec fn interrupts(s: HandlerState, avails: Seq<Seq<u8>>) -> (HandlerState, nat)
    decreases avails.len(),
{
    if avails.len() == 0 {
        (s, 0)
    } else {
        let (t, sent) = interrupt(s, avails[0]);
        let (u, n) = interrupts(t, avails.drop_first());
        (u, if sent { n + 1 } else { n })
    }
}

/// Over one or more interrupts with no request between them, the client is
/// signalled exactly once when the flag was armed and never when it was not.
pub proof fn lemma_one_signal_per_arming(s: HandlerState, avails: Seq<Seq<u8>>)
    requires
        avails.len() > 0,
    ensures
        interrupts(s, avails).1 == (if s.notify { 1nat } else { 0nat }),
        !interrupts(s, avails).0.notify,
    decreases avails.len(),
{
    lemma_edge_trigger(s, avails[0]);
    let t = interrupt(s, avails[0]).0;
    let rest = avails.drop_first();
    if rest.len() > 0 {
        lemma_one_signal_per_arming(t, rest);
    } else {
        assert(interrupts(t, rest) == (t, 0nat));
    }
    assert(interrupts(s, avails) == (interrupts(t, rest).0, if interrupt(s, avails[0]).1 {
        interrupts(t, rest).1 + 1
    } else {
        interrupts(t, rest).1
    }));
}

/// A `PutChar` request transmits exactly its byte, replies with the empty
/// success, and changes nothing else.
pub proof fn lemma_transmit_pass_through(s: HandlerState, v: u8)
    ensures
        request_step(s, Some(Request::PutChar { val: v })).1.transmit == Some(v),
        request_step(s, Some(Request::PutChar { val: v })).1.reply == Reply::Empty,
        request_step(s, Some(Request::PutChar { val: v })).0 == s,
{
}

/// A `GetChar` on an empty buffer answers `None` and arms the flag.
pub proof fn lemma_empty_receive(s: HandlerState)
    requires
        s.buffer.len() == 0,
    ensures
        request_step(s, Some(Request::GetChar)).1.reply == (Reply::GetChar { val: None }),
        request_step(s, Some(Request::GetChar)).0.notify,
        request_step(s, Some(Request::GetChar)).0.buffer == s.buffer,
{
}

/// An undecodable request gets the error reply, transmits nothing, and leaves
/// the buffer and the flag as they were.
pub proof fn lemma_malformed_isolated(s: HandlerState)
    ensures
        request_step(s, None).1 == (Protected { transmit: None, reply: Reply::UnspecifiedError }),
        request_step(s, None).0 == s,
{
}

} // verus!
