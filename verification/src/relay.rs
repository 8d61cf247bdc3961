//! The message relay: the single hand-off queue carrying decoded text from
//! the network listener to the rendering loop.
//!
//! `send` never blocks the producer; `try_recv` models the consumer's
//! receive-with-timeout: it returns the oldest pending message, or nothing
//! when the receive window elapses with the queue empty. Messages are kept
//! in arrival order, with no coalescing and no priority.

use vstd::prelude::*;

verus! {

/// The relay queue, oldest message first.
pub struct Relay {
    queue: Vec<String>,
}

/// One interaction with the relay: the producer hands a message over, or
/// the consumer polls once.
pub enum RelayOp {
    Send(Seq<char>),
    Poll,
}

/// The messages a sequence of interactions hands over, in order.
pub open spec fn sent(ops: Seq<RelayOp>) -> Seq<Seq<char>>
    decreases ops.len(),
{
    if ops.len() == 0 {
        Seq::empty()
    } else {
        match ops.last() {
            RelayOp::Send(m) => sent(ops.drop_last()).push(m),
            RelayOp::Poll => sent(ops.drop_last()),
        }
    }
}

/// The queue and the consumer's observations after a sequence of
/// interactions, starting from queue `q0` and observations `out0`.
pub open spec fn relay_run(q0: Seq<Seq<char>>, out0: Seq<Seq<char>>, ops: Seq<RelayOp>) -> (Seq<
    Seq<char>,
>, Seq<Seq<char>>)
    decreases ops.len(),
{
    if ops.len() == 0 {
        (q0, out0)
    } else {
        let (q, out) = relay_run(q0, out0, ops.drop_last());
        match ops.last() {
            RelayOp::Send(m) => (q.push(m), out),
            RelayOp::Poll => if q.len() > 0 {
                (q.drop_first(), out.push(q.first()))
            } else {
                (q, out)
            },
        }
    }
}

/// Law: whatever the consumer's poll timing, the messages it has observed
/// followed by the messages still queued are exactly the initial contents
/// followed by everything sent, in order — no loss, no duplication, no
/// reordering.
pub proof fn lemma_relay_ordering(q0: Seq<Seq<char>>, out0: Seq<Seq<char>>, ops: Seq<RelayOp>)
    ensures
        relay_run(q0, out0, ops).1 + relay_run(q0, out0, ops).0 == out0 + q0 + sent(ops),
    decreases ops.len(),
{
    if ops.len() == 0 {
        assert(relay_run(q0, out0, ops).1 + relay_run(q0, out0, ops).0 =~= out0 + q0 + sent(ops));
    } else {
        lemma_relay_ordering(q0, out0, ops.drop_last());
        let (q, out) = relay_run(q0, out0, ops.drop_last());
        match ops.last() {
            RelayOp::Send(m) => {
                assert(out + q.push(m) =~= (out + q).push(m));
                assert(out0 + q0 + sent(ops.drop_last()).push(m) =~= (out0 + q0 + sent(
                    ops.drop_last(),
                )).push(m));
            },
            RelayOp::Poll => {
                if q.len() > 0 {
                    assert(out.push(q.first()) + q.drop_first() =~= out + q);
                }
            },
        }
    }
}

impl Relay {
    /// The pending messages, oldest first.
    pub closed spec fn messages(self) -> Seq<Seq<char>> {
        self.queue@.map_values(|s: String| s@)
    }

    /// A fresh relay with nothing pending.
    pub fn new() -> (r: Relay)
        ensures
            r.messages() == Seq::<Seq<char>>::empty(),
    {
        let r = Relay { queue: Vec::new() };
        proof {
            assert(r.messages() =~= Seq::<Seq<char>>::empty());
        }
        r
    }

    /// The producer hands one message over; it never blocks.
    pub fn send(&mut self, message: String)
        ensures
            final(self).messages() == old(self).messages().push(message@),
    {
        let ghost m = message@;
        self.queue.push(message);
        proof {
            assert(final(self).messages() =~= old(self).messages().push(m));
        }
    }

    /// One consumer poll: the oldest pending message, or nothing when the
    /// receive window elapses with the queue empty — a timeout is not an
    /// error.
    pub fn try_recv(&mut self) -> (r: Option<String>)
        ensures
            old(self).messages().len() == 0 ==> r is None && final(self).messages() == old(
                self,
            ).messages(),
            old(self).messages().len() > 0 ==> (r matches Some(m) && m@ == old(
                self,
            ).messages().first() && final(self).messages() == old(self).messages().drop_first()),
    {
        if self.queue.len() == 0 {
            None
        } else {
            let m = self.queue.remove(0);
            proof {
                assert(final(self).messages() =~= old(self).messages().drop_first());
            }
            Some(m)
        }
    }
}

} // verus!
