//! The command channel: a FIFO queue of outbound control frames, filled by
//! the caller-facing methods and drained by the session loop before each
//! blocking read. `closed` models the other side of the channel having
//! gone away, after which sending fails and an emptied queue reports the
//! disconnect instead of blocking.

use vstd::prelude::*;

use crate::errors::ApiError;

verus! {

/// An outbound command: a text frame to write, or an order to close the
/// connection and stop the loop.
#[derive(Debug, Clone, PartialEq, Eq)]
pub enum WsMessage {
    Text(String),
    Close,
}

/// The abstract value of a command: the frame's characters, or the close
/// order.
pub enum WsMessageView {
    Text(Seq<char>),
    Close,
}

impl View for WsMessage {
    type V = WsMessageView;

    open spec fn view(&self) -> WsMessageView {
        match self {
            WsMessage::Text(s) => WsMessageView::Text(s@),
            WsMessage::Close => WsMessageView::Close,
        }
    }
}

/// What one receive attempt yields: the oldest queued command, nothing for
/// the moment, or the report that the channel is closed and drained.
pub enum Received {
    Message(WsMessage),
    Empty,
    Disconnected,
}

/// The producer-facing handle of the command channel. Commands are taken
/// in the order they were enqueued.
pub struct Sender {
    queue: Vec<WsMessage>,
    closed: bool,
}

impl View for Sender {
    type V = Seq<WsMessageView>;

    closed spec fn view(&self) -> Seq<WsMessageView> {
        Seq::new(self.queue@.len(), |i: int| self.queue@[i]@)
    }
}

impl Sender {
    /// Whether the channel has been closed.
    pub closed spec fn spec_closed(&self) -> bool {
        self.closed
    }

    /// A fresh, open, empty channel.
    pub fn new() -> (r: Sender)
        ensures
            r@ == Seq::<WsMessageView>::empty(),
            !r.spec_closed(),
    {
        let r = Sender { queue: Vec::new(), closed: false };
        proof {
            assert(r@ =~= Seq::<WsMessageView>::empty());
        }
        r
    }

    /// Enqueues a text frame. Fails exactly when the channel is closed,
    /// and then leaves the queue unchanged.
    pub fn send(&mut self, raw: &str) -> (r: Result<(), ApiError>)
        ensures
            !old(self).spec_closed() ==> r is Ok && final(self)@ == old(self)@.push(
                WsMessageView::Text(raw@),
            ),
            old(self).spec_closed() ==> r == Result::<(), ApiError>::Err(ApiError::ChannelClosed)
                && final(self)@ == old(self)@,
            final(self).spec_closed() == old(self).spec_closed(),
    {
        if self.closed {
            return Err(ApiError::ChannelClosed);
        }
        let msg = WsMessage::Text(raw.to_owned());
        self.queue.push(msg);
        proof {
            assert(self@ =~= old(self)@.push(WsMessageView::Text(raw@)));
        }
        Ok(())
    }

    /// Enqueues the close order. Fails exactly when the channel is closed,
    /// with the shutdown error rather than the send one, and then leaves
    /// the queue unchanged.
    pub fn shutdown(&mut self) -> (r: Result<(), ApiError>)
        ensures
            !old(self).spec_closed() ==> r is Ok && final(self)@ == old(self)@.push(
                WsMessageView::Close,
            ),
            old(self).spec_closed() ==> r == Result::<(), ApiError>::Err(ApiError::ShutdownFailed)
                && final(self)@ == old(self)@,
            final(self).spec_closed() == old(self).spec_closed(),
    {
        if self.closed {
            return Err(ApiError::ShutdownFailed);
        }
        self.queue.push(WsMessage::Close);
        proof {
            assert(self@ =~= old(self)@.push(WsMessageView::Close));
        }
        Ok(())
    }

    /// Takes the oldest queued command without blocking. An empty open
    /// channel yields `Empty`; an empty closed channel yields
    /// `Disconnected`.
    pub fn try_recv(&mut self) -> (r: Received)
        ensures
            old(self)@.len() > 0 ==> (r matches Received::Message(m) && m@ == old(self)@[0])
                && final(self)@ == old(self)@.drop_first(),
            old(self)@.len() == 0 ==> final(self)@ == old(self)@ && (if old(self).spec_closed() {
                r is Disconnected
            } else {
                r is Empty
            }),
            final(self).spec_closed() == old(self).spec_closed(),
    {
        if self.queue.len() == 0 {
            if self.closed {
                Received::Disconnected
            } else {
                Received::Empty
            }
        } else {
            let m = self.queue.remove(0);
            proof {
                assert(self@ =~= old(self)@.drop_first());
            }
            Received::Message(m)
        }
    }

    /// Closes the channel: later sends fail, and the consumer sees the
    /// disconnect once the queue is drained.
    pub fn close(&mut self)
        ensures
            final(self)@ == old(self)@,
            final(self).spec_closed(),
    {
        self.closed = true;
    }

    /// The number of queued commands.
    pub fn len(&self) -> (r: usize)
        ensures
            r == self@.len(),
    {
        self.queue.len()
    }
}

/// Law: the channel is first-in first-out — whatever stood in the queue
/// before, two commands enqueued in order are observed by the consumer in
/// that order, right after the earlier contents.
pub proof fn lemma_channel_fifo(q0: Seq<WsMessageView>, a: WsMessageView, b: WsMessageView)
    ensures
        q0.push(a).push(b).skip(q0.len() as int) =~= seq![a, b],
{
}

} // verus!
