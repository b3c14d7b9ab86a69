//! State bookkeeping of the tunnel-based duplex messenger.
//!
//! A messenger owns one outbound tunnel to a single peer, reached through a
//! proxy. Once connected, a background duplex task feeds inbound
//! newline-delimited text frames into the sliding-window buffer and drains an
//! outbound queue to the wire. The sockets, the task and its cancellation
//! live outside the library; this module holds the messenger's state machine
//! — connection bookkeeping, the outbound queue, the inbound window — and the
//! pure frame handling of both loops, each step with an exact contract.

use std::collections::VecDeque;
use vstd::prelude::*;

verus! {

use crate::buffer::{
    MAX_MESSAGES,
    MAX_TOTAL_BYTES,
    SlidingWindowBuffer,
    evict_oldest,
    take_count,
    views_of,
};
use vstd::string::StrSliceExecFns;

/// Failure taxonomy of the messenger. Mid-session transport errors are not
/// surfaced to callers; they end the background task, and only the next
/// `send_message` after the bookkeeping noted the death reports
/// `NotConnected`.
#[derive(Clone, Debug, PartialEq, Eq)]
pub enum MessengerError {
    AddressParse(String),
    TunnelEstablishment(String),
    NotConnected,
    Io(String),
}

/// A line with every trailing carriage return and newline removed.
pub open spec fn without_line_ending(s: Seq<char>) -> Seq<char>
    decreases s.len(),
{
    if s.len() > 0 && (s.last() == '\r' || s.last() == '\n') {
        without_line_ending(s.drop_last())
    } else {
        s
    }
}

/// Relies on `str::trim_end_matches`: removes every trailing `'\r'` and
/// `'\n'` from the line.
#[verifier::external_body]
fn trim_line_ending(line: &str) -> (cleaned: String)
    ensures
        cleaned@ == without_line_ending(line@),
{
    line.trim_end_matches(['\r', '\n']).to_string()
}

/// The wire format of one outbound message: its UTF-8 bytes followed by a
/// single newline delimiter.
pub open spec fn framed(msg: Seq<char>) -> Seq<u8> {
    vstd::utf8::encode_utf8(msg).push(10u8)
}

/// Encodes one message for the wire, ready to be written and flushed.
pub fn frame_message(msg: &str) -> (frame: Vec<u8>)
    ensures
        frame@ == framed(msg@),
{
    let mut frame = msg.as_bytes_vec();
    frame.push(10u8);
    frame
}

/// Messenger for one peer, reached through an anonymizing proxy onto the
/// overlay network.
///
/// This is the sequential core: the surrounding application holds it behind
/// one lock. `connected` stands for a live outbound queue and duplex task;
/// `outbound` models the queue the task drains to the wire.
pub struct YggdrasilMessenger {
    buffer: SlidingWindowBuffer,
    connected: bool,
    outbound: VecDeque<String>,
}

impl YggdrasilMessenger {
    /// Inbound messages waiting to be received, oldest first.
    pub closed spec fn inbound(&self) -> Seq<Seq<char>> {
        self.buffer.contents()
    }

    /// Outbound messages queued for the wire, oldest first.
    pub closed spec fn outbound(&self) -> Seq<Seq<char>> {
        views_of(self.outbound@)
    }

    /// Whether a connection (queue and duplex task) currently exists.
    pub closed spec fn is_connected(&self) -> bool {
        self.connected
    }

    /// Invariant: the window is well formed with the configured limits, and
    /// a torn-down messenger holds no queued output.
    pub closed spec fn wf(&self) -> bool {
        &&& self.buffer.wf()
        &&& self.buffer.spec_max_messages() == MAX_MESSAGES as nat
        &&& self.buffer.spec_max_bytes() == MAX_TOTAL_BYTES as nat
        &&& (!self.connected ==> self.outbound@.len() == 0)
    }

    pub fn new() -> (messenger: Self)
        ensures
            messenger.wf(),
            !messenger.is_connected(),
            messenger.inbound() == Seq::<Seq<char>>::empty(),
            messenger.outbound() == Seq::<Seq<char>>::empty(),
    {
        let messenger = YggdrasilMessenger {
            buffer: SlidingWindowBuffer::new(MAX_MESSAGES, MAX_TOTAL_BYTES),
            connected: false,
            outbound: VecDeque::new(),
        };
        proof {
            assert(messenger.outbound() =~= Seq::<Seq<char>>::empty());
        }
        messenger
    }

    /// Bookkeeping of a successful tunnel establishment: a fresh, empty
    /// outbound queue exists and the duplex task is live. Address parsing
    /// and the tunnel itself happen outside the library before this; on
    /// their failure the messenger is left untouched and stays disconnected.
    pub fn complete_connect(&mut self)
        requires
            old(self).wf(),
            !old(self).is_connected(),
        ensures
            final(self).wf(),
            final(self).is_connected(),
            final(self).outbound() == Seq::<Seq<char>>::empty(),
            final(self).inbound() == old(self).inbound(),
    {
        self.connected = true;
        proof {
            assert(self.outbound() =~= Seq::<Seq<char>>::empty());
        }
    }

    /// Enqueues a message for the wire. Fails with `NotConnected` — and
    /// changes nothing — when no connection exists: never connected, already
    /// disconnected, or the duplex task noted dead.
    pub fn send_message(&mut self, msg: String) -> (sent: Result<(), MessengerError>)
        requires
            old(self).wf(),
        ensures
            final(self).wf(),
            final(self).is_connected() == old(self).is_connected(),
            final(self).inbound() == old(self).inbound(),
            old(self).is_connected() ==> sent is Ok && final(self).outbound() == old(self).outbound().push(msg@),
            !old(self).is_connected() ==> (sent matches Err(MessengerError::NotConnected)) && final(self).outbound() == old(self).outbound(),
    {
        if self.connected {
            let ghost before = self.outbound();
            self.outbound.push_back(msg);
            proof {
                assert(self.outbound() =~= before.push(msg@));
            }
            Ok(())
        } else {
            Err(MessengerError::NotConnected)
        }
    }

    /// Enqueues a message from a context that cannot wait; the same
    /// behaviour as `send_message`.
    pub fn queue_network_message(&mut self, msg: String) -> (sent: Result<(), MessengerError>)
        requires
            old(self).wf(),
        ensures
            final(self).wf(),
            final(self).is_connected() == old(self).is_connected(),
            final(self).inbound() == old(self).inbound(),
            old(self).is_connected() ==> sent is Ok && final(self).outbound() == old(self).outbound().push(msg@),
            !old(self).is_connected() ==> (sent matches Err(MessengerError::NotConnected)) && final(self).outbound() == old(self).outbound(),
    {
        self.send_message(msg)
    }

    /// Removes and returns up to `count` of the oldest buffered inbound
    /// messages, in arrival order.
    pub fn receive_messages(&mut self, count: usize) -> (received: Vec<String>)
        requires
            old(self).wf(),
        ensures
            final(self).wf(),
            final(self).is_connected() == old(self).is_connected(),
            final(self).outbound() == old(self).outbound(),
            views_of(received@) == old(self).inbound().take(
                take_count(count as nat, old(self).inbound().len()) as int,
            ),
            final(self).inbound() == old(self).inbound().skip(
                take_count(count as nat, old(self).inbound().len()) as int,
            ),
    {
        self.buffer.get_next_n_messages(count)
    }

    /// One step of the duplex task's inbound loop: a completed line from the
    /// wire, its delimiter stripped, enters the sliding window.
    pub fn handle_inbound_line(&mut self, line: String)
        requires
            old(self).wf(),
        ensures
            final(self).wf(),
            final(self).is_connected() == old(self).is_connected(),
            final(self).outbound() == old(self).outbound(),
            final(self).inbound() == evict_oldest(
                old(self).inbound().push(without_line_ending(line@)),
                MAX_MESSAGES as nat,
                MAX_TOTAL_BYTES as nat,
            ),
    {
        let cleaned = trim_line_ending(line.as_str());
        self.buffer.add_message(cleaned);
    }

    /// One step of the duplex task's outbound loop: the oldest queued
    /// message leaves the queue, to be framed, written and flushed.
    pub fn next_outbound(&mut self) -> (msg: Option<String>)
        requires
            old(self).wf(),
        ensures
            final(self).wf(),
            final(self).is_connected() == old(self).is_connected(),
            final(self).inbound() == old(self).inbound(),
            old(self).outbound().len() == 0 ==> msg is None && final(self).outbound() == old(self).outbound(),
            old(self).outbound().len() > 0 ==> (msg matches Some(m) && m@ == old(self).outbound()[0] && final(self).outbound() == old(self).outbound().skip(1)),
    {
        let ghost before = self.outbound();
        let msg = self.outbound.pop_front();
        proof {
            if before.len() > 0 {
                assert(self.outbound() =~= before.skip(1));
            }
        }
        msg
    }

    /// Bookkeeping of the duplex task's own death after a mid-session
    /// transport error: the connection is noted gone and the queue
    /// discarded, so the next `send_message` reports `NotConnected` instead
    /// of queueing messages nothing will ever drain.
    pub fn note_task_ended(&mut self)
        requires
            old(self).wf(),
        ensures
            final(self).wf(),
            !final(self).is_connected(),
            final(self).outbound().len() == 0,
            final(self).inbound() == old(self).inbound(),
    {
        self.connected = false;
        self.outbound.clear();
    }

    /// Tears the connection down: the surrounding application cancels the
    /// duplex task and waits out a grace period; here the outbound queue is
    /// discarded and the connection forgotten. Idempotent: on an already
    /// disconnected messenger it succeeds and changes nothing.
    pub fn disconnect(&mut self) -> (result: Result<(), MessengerError>)
        requires
            old(self).wf(),
        ensures
            final(self).wf(),
            result is Ok,
            !final(self).is_connected(),
            final(self).outbound().len() == 0,
            final(self).inbound() == old(self).inbound(),
    {
        self.connected = false;
        self.outbound.clear();
        Ok(())
    }
}

} // verus!
