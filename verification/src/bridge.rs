//! The output bridge: buffered synchronous writes, asynchronous delivery.
//!
//! A render surface writes into an in-memory buffer and never blocks on the
//! transport. A flush takes the whole buffer as one batch and hands it to
//! the forwarding task over an unbounded channel; that task is the sole
//! consumer, so batches reach the transport in flush order. The bridge
//! keeps a ghost history of the batches it handed over, so callers can
//! reason about exactly what was delivered.

use vstd::prelude::*;

verus! {

#[verifier::external_type_specification]
#[verifier::external_body]
#[verifier::reject_recursive_types(T)]
pub struct ExUnboundedSender<T>(tokio::sync::mpsc::UnboundedSender<T>);

/// Relies on tokio's `UnboundedSender::send`: it queues the value without
/// blocking and fails only when the receiving half is gone, handing the
/// value back inside the error.
#[verifier::external_body]
fn send_batch(sender: &tokio::sync::mpsc::UnboundedSender<Vec<u8>>, data: Vec<u8>) -> (r: Result<
    (),
    Vec<u8>,
>)
    ensures
        r matches Err(v) ==> v@ == data@,
{
    sender.send(data).map_err(|e| e.0)
}

/// Why a flush failed.
#[derive(Clone, Copy, PartialEq, Eq, Structural, Debug)]
pub enum BridgeError {
    /// The forwarding task is gone, so the transport can no longer be
    /// reached; the session that writes here is dead.
    TransportClosed,
}

/// The write surface handed to the render backend: a buffer, the channel to
/// the forwarding task, and the ghost history of delivered batches.
pub struct TerminalHandle {
    sender: tokio::sync::mpsc::UnboundedSender<Vec<u8>>,
    sink: Vec<u8>,
    sent: Ghost<Seq<Seq<u8>>>,
}

impl TerminalHandle {
    /// The bytes written since the last flush, in write order.
    pub closed spec fn buffered(&self) -> Seq<u8> {
        self.sink@
    }

    /// Every batch handed to the forwarding task so far, in flush order.
    pub closed spec fn sent(&self) -> Seq<Seq<u8>> {
        self.sent@
    }

    /// Wraps the sending half of the forwarding task's channel. The host
    /// spawns the task that drains the other half into the transport.
    pub fn new(sender: tokio::sync::mpsc::UnboundedSender<Vec<u8>>) -> (h: TerminalHandle)
        ensures
            h.buffered() == Seq::<u8>::empty(),
            h.sent() == Seq::<Seq<u8>>::empty(),
    {
        TerminalHandle { sender, sink: Vec::new(), sent: Ghost(Seq::empty()) }
    }

    /// Appends to the buffer; never blocks and never fails, whatever state
    /// the transport is in. Returns how many bytes were taken: all of them.
    pub fn write(&mut self, buf: &[u8]) -> (n: usize)
        ensures
            final(self).buffered() == old(self).buffered() + buf@,
            final(self).sent() == old(self).sent(),
            n == buf@.len(),
    {
        let ghost sink0 = self.sink@;
        let mut i: usize = 0;
        while i < buf.len()
            invariant
                i <= buf@.len(),
                self.sink@ == sink0 + buf@.take(i as int),
                self.sent == old(self).sent,
                self.sender == old(self).sender,
            decreases buf@.len() - i,
        {
            self.sink.push(buf[i]);
            proof {
                assert(sink0 + buf@.take(i + 1) =~= (sink0 + buf@.take(i as int)).push(
                    buf@[i as int],
                ));
            }
            i = i + 1;
        }
        proof {
            assert(buf@.take(buf@.len() as int) =~= buf@);
        }
        buf.len()
    }

    /// Takes the whole buffer, hands it to the forwarding task as one
    /// batch, and clears the buffer. Fails only when the forwarding task is
    /// gone; the buffer is then left as it was.
    pub fn flush(&mut self) -> (r: Result<(), BridgeError>)
        ensures
            r is Ok ==> final(self).buffered() == Seq::<u8>::empty() && final(self).sent() == old(
                self,
            ).sent().push(old(self).buffered()),
            r is Err ==> final(self).buffered() == old(self).buffered() && final(self).sent()
                == old(self).sent() && r == Err::<(), BridgeError>(BridgeError::TransportClosed),
    {
        let mut batch: Vec<u8> = Vec::new();
        core::mem::swap(&mut self.sink, &mut batch);
        match send_batch(&self.sender, batch) {
            Ok(_) => {
                proof {
                    self.sent@ = self.sent@.push(old(self).sink@);
                }
                Ok(())
            },
            Err(returned) => {
                self.sink = returned;
                Err(BridgeError::TransportClosed)
            },
        }
    }
}

/// All batches laid end to end, oldest first.
pub open spec fn concat_batches(bufs: Seq<Seq<u8>>) -> Seq<u8>
    decreases bufs.len(),
{
    if bufs.len() == 0 {
        Seq::empty()
    } else {
        concat_batches(bufs.drop_last()) + bufs.last()
    }
}

/// The buffer after a run of writes, in write order.
pub open spec fn buffered_after_writes(sink: Seq<u8>, bufs: Seq<Seq<u8>>) -> Seq<u8>
    decreases bufs.len(),
{
    if bufs.len() == 0 {
        sink
    } else {
        buffered_after_writes(sink, bufs.drop_last()) + bufs.last()
    }
}

/// Law: every write made before a flush is delivered by that flush, in one
/// batch, in write order — the buffer gathers exactly the concatenation of
/// the writes, a successful flush hands over exactly that batch, and the
/// buffer is empty immediately after.
pub proof fn lemma_flush_delivers_writes_in_order(sink0: Seq<u8>, bufs: Seq<Seq<u8>>)
    ensures
        buffered_after_writes(sink0, bufs) == sink0 + concat_batches(bufs),
    decreases bufs.len(),
{
    if bufs.len() == 0 {
        assert(sink0 + concat_batches(bufs) =~= sink0);
    } else {
        lemma_flush_delivers_writes_in_order(sink0, bufs.drop_last());
        assert(sink0 + concat_batches(bufs) =~= (sink0 + concat_batches(bufs.drop_last()))
            + bufs.last());
    }
}

} // verus!
