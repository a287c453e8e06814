//! The event core: what the driver does on a device interrupt and on a client
//! request, as one owned state record stepped by events.
//!
//! Reading the hardware, acknowledging the interrupt and signalling the client
//! are done by the caller, which performs the actions these steps return.
use vstd::prelude::*;
use crate::rx_buffer::{RxBuffer, RX_CAPACITY};

verus! {

/// A request from the client.
#[derive(Clone, Copy, Debug, PartialEq, Eq, Structural)]
pub enum Request {
    /// Transmit one byte.
    PutChar { val: u8 },
    /// Take the oldest received byte, if any.
    GetChar,
}

/// The reply sent back to the client.
#[derive(Clone, Copy, Debug, PartialEq, Eq, Structural)]
pub enum Reply {
    /// Success with no payload (answer to `PutChar`).
    Empty,
    /// Answer to `GetChar`: the byte taken, or `None` when nothing was buffered.
    GetChar { val: Option<u8> },
    /// The request could not be decoded.
    UnspecifiedError,
}

/// What serving a client request asks of the caller: transmit a byte first,
/// when `transmit` holds one, then send `reply`.
#[derive(Clone, Copy, Debug, PartialEq, Eq, Structural)]
pub struct Protected {
    pub transmit: Option<u8>,
    pub reply: Reply,
}

/// What the caller does after handing one hardware read to the core.
#[derive(Clone, Copy, Debug, PartialEq, Eq, Structural)]
pub enum DeviceAction {
    /// Read the next byte from the hardware and hand it over.
    ReadNext,
    /// Stop draining: clear the device's interrupt condition, acknowledge the
    /// interrupt, and then signal the client when `notify` holds.
    Finish { notify: bool },
}

/// The state of the core as values: the buffered bytes, oldest first, and
/// whether a notification to the client is owed.
pub struct HandlerState {
    pub buffer: Seq<u8>,
    pub notify: bool,
}

/// The state right after startup: nothing buffered, a notification owed.
pub open spec fn initial_state() -> HandlerState {
    HandlerState { buffer: Seq::empty(), notify: true }
}

/// One hardware read during an interrupt. A byte is buffered while there is
/// room, and draining goes on. No byte, or a byte that finds the buffer full
/// (and is dropped), ends the interrupt: the owed notification, if any, is
/// sent and the flag cleared.
pub open spec fn device_step(s: HandlerState, got: Option<u8>) -> (HandlerState, DeviceAction) {
    match got {
        Some(c) if s.buffer.len() < RX_CAPACITY => (
            HandlerState { buffer: s.buffer.push(c), notify: s.notify },
            DeviceAction::ReadNext,
        ),
        _ => (
            HandlerState { buffer: s.buffer, notify: false },
            DeviceAction::Finish { notify: s.notify },
        ),
    }
}

/// One client request; `None` is a request that could not be decoded.
pub open spec fn request_step(s: HandlerState, req: Option<Request>) -> (HandlerState, Protected) {
    match req {
        Some(Request::PutChar { val }) => (s, Protected { transmit: Some(val), reply: Reply::Empty }),
        Some(Request::GetChar) => {
            if s.buffer.len() == 0 {
                (
                    HandlerState { buffer: s.buffer, notify: true },
                    Protected { transmit: None, reply: Reply::GetChar { val: None } },
                )
            } else {
                (
                    HandlerState { buffer: s.buffer.drop_first(), notify: true },
                    Protected { transmit: None, reply: Reply::GetChar { val: Some(s.buffer[0]) } },
                )
            }
        },
        None => (s, Protected { transmit: None, reply: Reply::UnspecifiedError }),
    }
}

/// The driver's state: the receive buffer and the pending-notification flag.
pub struct HandlerImpl {
    buffer: RxBuffer,
    notify: bool,
}

impl View for HandlerImpl {
    type V = HandlerState;

    closed spec fn view(&self) -> HandlerState {
        HandlerState { buffer: self.buffer@, notify: self.notify }
    }
}

/// The state at startup: an empty buffer and a notification owed, so that the
/// first interrupt signals the client.
pub fn init() -> (r: HandlerImpl)
    ensures
        r.wf(),
        r@ == initial_state(),
{
    HandlerImpl { buffer: RxBuffer::new(), notify: true }
}

impl HandlerImpl {
    /// The buffer never holds more than its capacity.
    pub open spec fn wf(&self) -> bool {
        self@.buffer.len() <= RX_CAPACITY
    }

    /// Handles one hardware read made while serving a device interrupt
    /// (`None`: the hardware had no more input).
    pub fn notified(&mut self, got: Option<u8>) -> (r: DeviceAction)
        requires
            old(self).wf(),
        ensures
            final(self).wf(),
            (final(self)@, r) == device_step(old(self)@, got),
    {
        match got {
            Some(c) => {
                if self.buffer.push_back(c) {
                    return DeviceAction::ReadNext;
                }
            },
            None => {},
        }
        let notify = self.notify;
        self.notify = false;
        DeviceAction::Finish { notify }
    }

    /// Serves one client request (`None`: the payload could not be decoded).
    pub fn protected(&mut self, req: Option<Request>) -> (r: Protected)
        requires
            old(self).wf(),
        ensures
            final(self).wf(),
            (final(self)@, r) == request_step(old(self)@, req),
    {
        match req {
            Some(Request::PutChar { val }) => Protected { transmit: Some(val), reply: Reply::Empty },
            Some(Request::GetChar) => {
                let val = self.buffer.pop_front();
                self.notify = true;
                Protected { transmit: None, reply: Reply::GetChar { val } }
            },
            None => Protected { transmit: None, reply: Reply::UnspecifiedError },
        }
    }

    /// Whether a notification to the client is owed.
    pub fn notify_pending(&self) -> (r: bool)
        ensures
            r == self@.notify,
    {
        self.notify
    }

    /// Number of buffered bytes.
    pub fn buffered(&self) -> (r: usize)
        ensures
            r == self@.buffer.len(),
    {
        self.buffer.len()
    }
}

} // verus!
