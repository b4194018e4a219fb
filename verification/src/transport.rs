//! The reply egress buffer: serialized replies are appended here and the
//! TX pump, woken by a signal, drains it toward the host link.

use vstd::prelude::*;

verus! {

/// Largest packet the virtual-serial link carries at once.
pub const USB_MAX_PACKET_SIZE: usize = 64;

/// Capacity of the reply buffer: two full packets.
pub const TX_BUFFER_CAPACITY: usize = 128;

/// A first-in first-out byte buffer with a fixed capacity: replies are
/// appended at the back, and the TX pump pops whatever the link accepted
/// off the front.
pub struct TxBuffer {
    bytes: Vec<u8>,
}

impl TxBuffer {
    /// The bytes waiting to be sent, in send order.
    pub closed spec fn view(&self) -> Seq<u8> {
        self.bytes@
    }

    /// The buffer never outgrows its two packets.
    pub open spec fn wf(&self) -> bool {
        self.view().len() <= TX_BUFFER_CAPACITY
    }

    pub fn new() -> (r: Self)
        ensures
            r.view() == Seq::<u8>::empty(),
            r.wf(),
    {
        TxBuffer { bytes: Vec::new() }
    }

    /// How many bytes wait.
    pub fn len(&self) -> (n: usize)
        ensures
            n == self.view().len(),
    {
        self.bytes.len()
    }

    pub fn is_empty(&self) -> (r: bool)
        ensures
            r <==> self.view().len() == 0,
    {
        self.bytes.len() == 0
    }

    /// The waiting bytes, for the pump to hand to the link.
    pub fn data(&self) -> (r: &[u8])
        ensures
            r@ == self.view(),
    {
        self.bytes.as_slice()
    }

    /// Append a serialized reply.  The caller keeps the buffer inside its
    /// capacity: the pump drains it before more than two packets gather.
    pub fn extend(&mut self, reply: &[u8])
        requires
            old(self).view().len() + reply@.len() <= TX_BUFFER_CAPACITY,
        ensures
            final(self).view() == old(self).view() + reply@,
            final(self).wf(),
    {
        let mut i: usize = 0;
        while i < reply.len()
            invariant
                i <= reply@.len(),
                self.bytes@ == old(self).bytes@ + reply@.subrange(0, i as int),
                old(self).bytes@.len() + reply@.len() <= TX_BUFFER_CAPACITY,
            decreases reply@.len() - i,
        {
            self.bytes.push(reply[i]);
            i = i + 1;
            proof {
                assert(reply@.subrange(0, i as int) == reply@.subrange(0, i - 1 as int).push(
                    reply@[i - 1],
                ));
            }
        }
        proof {
            assert(reply@.subrange(0, reply@.len() as int) == reply@);
        }
    }

    /// Drop the `sent` bytes the link accepted off the front.
    pub fn pop(&mut self, sent: usize)
        requires
            sent <= old(self).view().len(),
        ensures
            final(self).view() == old(self).view().skip(sent as int),
    {
        let mut i: usize = 0;
        let len = self.bytes.len();
        while i < len - sent
            invariant
                sent <= len <= self.bytes@.len(),
                i <= len - sent,
                self.bytes@.len() == old(self).bytes@.len(),
                forall|j: int|
                    0 <= j < i ==> self.bytes@[j] == old(self).bytes@[j + sent],
                forall|j: int|
                    i <= j < self.bytes@.len() ==> self.bytes@[j] == old(self).bytes@[j],
            decreases len - sent - i,
        {
            let b = self.bytes[i + sent];
            self.bytes.set(i, b);
            i = i + 1;
        }
        self.bytes.truncate(len - sent);
        proof {
            assert(self.bytes@ =~= old(self).bytes@.skip(sent as int));
        }
    }
}

} // verus!
