//! The receive buffer: a FIFO of bytes with a fixed capacity, held in a
//! `heapless::Deque`.
use vstd::prelude::*;

verus! {

/// Number of bytes the receive buffer can hold.
pub const RX_CAPACITY: usize = 256;

#[verifier::external_type_specification]
#[verifier::external_body]
#[verifier::reject_recursive_types(T)]
pub struct ExDeque<T, const N: usize>(heapless::Deque<T, N>);

/// The bytes held by a deque, front first.
pub uninterp spec fn deque_items(d: heapless::Deque<u8, 256>) -> Seq<u8>;

/// Relies on `heapless::Deque::new`: a fresh deque holds nothing.
#[verifier::external_body]
fn deque_new() -> (r: heapless::Deque<u8, 256>)
    ensures
        deque_items(r) == Seq::<u8>::empty(),
{
    heapless::Deque::new()
}

/// Relies on `heapless::Deque::push_back`: when the deque is not full the item
/// goes to the back and `Ok` is returned; when it holds `N` items the deque is
/// left as it was and the item is handed back in `Err`.
#[verifier::external_body]
fn deque_push_back(d: &mut heapless::Deque<u8, 256>, item: u8) -> (r: Result<(), u8>)
    ensures
        r == (if deque_items(*old(d)).len() < 256 { Ok::<(), u8>(()) } else { Err::<(), u8>(item) }),
        deque_items(*final(d)) == (if deque_items(*old(d)).len() < 256 { deque_items(*old(d)).push(item) } else { deque_items(*old(d)) }),
{
    d.push_back(item)
}

/// Relies on `heapless::Deque::pop_front`: `None` on an empty deque, which is
/// left as it was; otherwise the front item, which is removed.
#[verifier::external_body]
fn deque_pop_front(d: &mut heapless::Deque<u8, 256>) -> (r: Option<u8>)
    ensures
        r == (if deque_items(*old(d)).len() == 0 { None::<u8> } else { Some(deque_items(*old(d))[0]) }),
        deque_items(*final(d)) == (if deque_items(*old(d)).len() == 0 { deque_items(*old(d)) } else { deque_items(*old(d)).drop_first() }),
{
    d.pop_front()
}

/// Relies on `heapless::Deque::len`: the number of items held.
#[verifier::external_body]
fn deque_len(d: &heapless::Deque<u8, 256>) -> (r: usize)
    ensures
        r == deque_items(*d).len(),
{
    d.len()
}

/// A FIFO of received bytes that never holds more than `RX_CAPACITY` of them.
pub struct RxBuffer {
    deque: heapless::Deque<u8, 256>,
}

impl View for RxBuffer {
    type V = Seq<u8>;

    closed spec fn view(&self) -> Seq<u8> {
        deque_items(self.deque)
    }
}

impl RxBuffer {
    /// The buffer never holds more bytes than its capacity.
    pub open spec fn wf(&self) -> bool {
        self@.len() <= RX_CAPACITY
    }

    /// An empty buffer.
    pub fn new() -> (r: RxBuffer)
        ensures
            r.wf(),
            r@ == Seq::<u8>::empty(),
    {
        RxBuffer { deque: deque_new() }
    }

    /// Appends `c` at the back. A full buffer is left as it is, and `false` is
    /// returned: the byte is dropped.
    pub fn push_back(&mut self, c: u8) -> (accepted: bool)
        requires
            old(self).wf(),
        ensures
            final(self).wf(),
            accepted == (old(self)@.len() < RX_CAPACITY),
            accepted ==> final(self)@ == old(self)@.push(c),
            !accepted ==> final(self)@ == old(self)@,
    {
        let r = deque_push_back(&mut self.deque, c);
        r.is_ok()
    }

    /// Number of bytes held.
    pub fn len(&self) -> (r: usize)
        ensures
            r == self@.len(),
    {
        deque_len(&self.deque)
    }

    /// Removes and returns the byte at the front, or `None` when the buffer is
    /// empty.
    pub fn pop_front(&mut self) -> (r: Option<u8>)
        requires
            old(self).wf(),
        ensures
            final(self).wf(),
            old(self)@.len() == 0 ==> r == None::<u8> && final(self)@ == old(self)@,
            old(self)@.len() > 0 ==> r == Some(old(self)@[0]) && final(self)@
                == old(self)@.drop_first(),
    {
        deque_pop_front(&mut self.deque)
    }
}

} // verus!
