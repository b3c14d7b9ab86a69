//! Bounded sliding-window buffer for inbound text messages.
//!
//! The buffer is a FIFO queue under two independent limits: a maximum number
//! of messages and a maximum total byte size. After every push the oldest
//! messages are evicted until both limits hold again; draining removes and
//! returns the oldest messages in arrival order.

use std::collections::VecDeque;
use vstd::prelude::*;

verus! {

/// Default capacity of the window in messages.
pub const MAX_MESSAGES: usize = 256;

/// Default capacity of the window in bytes: 16 MiB.
pub const MAX_TOTAL_BYTES: usize = 16 * 1024 * 1024;

/// Number of bytes the UTF-8 encoding of a message occupies, as `str::len`
/// reports it; this is the quantity the buffer accounts.
pub open spec fn msg_byte_len(m: Seq<char>) -> nat {
    (vstd::utf8::encode_utf8(m).len() as usize) as nat
}

/// The character sequences of a sequence of strings.
pub open spec fn views_of(v: Seq<String>) -> Seq<Seq<char>> {
    v.map(|i: int, m: String| m@)
}

/// Total byte count of a sequence of messages.
pub open spec fn total_bytes_of(ms: Seq<Seq<char>>) -> nat
    decreases ms.len(),
{
    if ms.len() == 0 {
        0
    } else {
        msg_byte_len(ms[0]) + total_bytes_of(ms.skip(1))
    }
}

/// Both buffer limits hold of a message sequence.
pub open spec fn within_limits(ms: Seq<Seq<char>>, max_messages: nat, max_bytes: nat) -> bool {
    ms.len() <= max_messages && total_bytes_of(ms) <= max_bytes
}

/// Oldest-first eviction: drop messages from the front until both limits
/// hold. The empty sequence always satisfies the limits, so this terminates
/// with a sequence within them.
pub open spec fn evict_oldest(
    ms: Seq<Seq<char>>,
    max_messages: nat,
    max_bytes: nat,
) -> Seq<Seq<char>>
    decreases ms.len(),
{
    if within_limits(ms, max_messages, max_bytes) || ms.len() == 0 {
        ms
    } else {
        evict_oldest(ms.skip(1), max_messages, max_bytes)
    }
}

/// How many messages a drain of `count` takes from a buffer holding
/// `available` messages.
pub open spec fn take_count(count: nat, available: nat) -> nat {
    if count < available {
        count
    } else {
        available
    }
}

proof fn lemma_total_bytes_push(ms: Seq<Seq<char>>, m: Seq<char>)
    ensures
        total_bytes_of(ms.push(m)) == total_bytes_of(ms) + msg_byte_len(m),
    decreases ms.len(),
{
    if ms.len() == 0 {
        assert(ms.push(m).skip(1) =~= Seq::<Seq<char>>::empty());
        assert(total_bytes_of(Seq::<Seq<char>>::empty()) == 0);
        assert(ms.push(m)[0] == m);
    } else {
        assert(ms.push(m).skip(1) =~= ms.skip(1).push(m));
        lemma_total_bytes_push(ms.skip(1), m);
        assert(ms.push(m)[0] == ms[0]);
    }
}

proof fn lemma_total_bytes_last(ms: Seq<Seq<char>>)
    requires
        ms.len() > 0,
    ensures
        total_bytes_of(ms) >= msg_byte_len(ms.last()),
    decreases ms.len(),
{
    if ms.len() == 1 {
        assert(ms[0] == ms.last());
    } else {
        lemma_total_bytes_last(ms.skip(1));
        assert(ms.skip(1).last() == ms.last());
    }
}

/// When the newest message can never fit (the message limit is zero, or the
/// message alone is over the byte limit), eviction empties the buffer.
proof fn lemma_evict_all(ms: Seq<Seq<char>>, max_messages: nat, max_bytes: nat)
    requires
        ms.len() > 0,
        max_messages == 0 || msg_byte_len(ms.last()) > max_bytes,
    ensures
        evict_oldest(ms, max_messages, max_bytes) == Seq::<Seq<char>>::empty(),
    decreases ms.len(),
{
    lemma_total_bytes_last(ms);
    assert(!within_limits(ms, max_messages, max_bytes));
    if ms.len() == 1 {
        assert(ms.skip(1) =~= Seq::<Seq<char>>::empty());
        assert(evict_oldest(Seq::<Seq<char>>::empty(), max_messages, max_bytes)
            == Seq::<Seq<char>>::empty());
    } else {
        assert(ms.skip(1).last() == ms.last());
        lemma_evict_all(ms.skip(1), max_messages, max_bytes);
    }
}

/// Bounded FIFO of text messages with exact byte accounting.
pub struct SlidingWindowBuffer {
    messages: VecDeque<String>,
    total_bytes: usize,
    max_messages: usize,
    max_bytes: usize,
}

impl SlidingWindowBuffer {
    /// The buffered messages, oldest first.
    pub closed spec fn contents(&self) -> Seq<Seq<char>> {
        views_of(self.messages@)
    }

    pub closed spec fn spec_total_bytes(&self) -> nat {
        self.total_bytes as nat
    }

    pub closed spec fn spec_max_messages(&self) -> nat {
        self.max_messages as nat
    }

    pub closed spec fn spec_max_bytes(&self) -> nat {
        self.max_bytes as nat
    }

    /// Invariant, restored after every mutation: the byte account is exact
    /// and both limits hold.
    pub open spec fn wf(&self) -> bool {
        &&& self.spec_total_bytes() == total_bytes_of(self.contents())
        &&& within_limits(self.contents(), self.spec_max_messages(), self.spec_max_bytes())
    }

    /// Number of buffered messages.
    pub fn len(&self) -> (count: usize)
        ensures
            count == self.contents().len(),
    {
        self.messages.len()
    }

    /// Exact number of buffered bytes.
    pub fn total_byte_count(&self) -> (bytes: usize)
        ensures
            bytes == self.spec_total_bytes(),
    {
        self.total_bytes
    }

    pub fn new(max_messages: usize, max_bytes: usize) -> (buffer: Self)
        ensures
            buffer.wf(),
            buffer.contents() == Seq::<Seq<char>>::empty(),
            buffer.spec_max_messages() == max_messages,
            buffer.spec_max_bytes() == max_bytes,
    {
        let buffer = SlidingWindowBuffer {
            messages: VecDeque::new(),
            total_bytes: 0,
            max_messages,
            max_bytes,
        };
        proof {
            assert(buffer.contents() =~= Seq::<Seq<char>>::empty());
        }
        buffer
    }

    /// Appends a message at the back, then evicts from the front until both
    /// limits hold again. Never fails; a message that can never fit leaves
    /// the buffer empty.
    pub fn add_message(&mut self, msg: String)
        requires
            old(self).wf(),
        ensures
            final(self).wf(),
            final(self).contents() == evict_oldest(
                old(self).contents().push(msg@),
                old(self).spec_max_messages(),
                old(self).spec_max_bytes(),
            ),
            final(self).contents().len() <= final(self).spec_max_messages(),
            final(self).spec_total_bytes() <= final(self).spec_max_bytes(),
            final(self).spec_max_messages() == old(self).spec_max_messages(),
            final(self).spec_max_bytes() == old(self).spec_max_bytes(),
    {
        let msg_bytes: usize = msg.as_str().len();
        if self.max_messages == 0 || msg_bytes > self.max_bytes {
            proof {
                assert(old(self).contents().push(msg@).last() == msg@);
                lemma_evict_all(
                    old(self).contents().push(msg@),
                    old(self).spec_max_messages(),
                    old(self).spec_max_bytes(),
                );
            }
            self.messages.clear();
            self.total_bytes = 0;
            proof {
                assert(self.contents() =~= Seq::<Seq<char>>::empty());
            }
            return;
        }
        let ghost max_m = old(self).spec_max_messages();
        let ghost max_b = old(self).spec_max_bytes();
        let ghost target = evict_oldest(old(self).contents().push(msg@), max_m, max_b);
        while self.messages.len() >= self.max_messages || self.total_bytes > self.max_bytes
            - msg_bytes
            invariant
                self.max_messages == old(self).max_messages,
                self.max_bytes == old(self).max_bytes,
                max_m == self.max_messages as nat,
                max_b == self.max_bytes as nat,
                self.max_messages >= 1,
                msg_bytes <= self.max_bytes,
                msg_bytes == msg_byte_len(msg@),
                self.total_bytes == total_bytes_of(self.contents()),
                evict_oldest(self.contents().push(msg@), max_m, max_b) == target,
            decreases self.messages.len(),
        {
            proof {
                lemma_total_bytes_push(self.contents(), msg@);
                assert(!within_limits(self.contents().push(msg@), max_m, max_b));
                assert(self.contents().push(msg@).skip(1) =~= self.contents().skip(1).push(msg@));
            }
            let ghost before = self.contents();
            let oldest = match self.messages.pop_front() {
                Some(m) => m,
                None => {
                    proof {
                        assert(false);
                    }
                    unreached()
                },
            };
            proof {
                assert(self.contents() =~= before.skip(1));
                assert(oldest@ == before[0]);
            }
            self.total_bytes = self.total_bytes - oldest.as_str().len();
        }
        proof {
            lemma_total_bytes_push(self.contents(), msg@);
            assert(within_limits(self.contents().push(msg@), max_m, max_b));
        }
        let ghost before = self.contents();
        self.messages.push_back(msg);
        self.total_bytes = self.total_bytes + msg_bytes;
        proof {
            assert(self.contents() =~= before.push(msg@));
        }
    }

    /// Removes and returns the oldest `min(count, len)` messages, oldest
    /// first.
    pub fn get_next_n_messages(&mut self, count: usize) -> (taken: Vec<String>)
        requires
            old(self).wf(),
        ensures
            final(self).wf(),
            views_of(taken@) == old(self).contents().take(
                take_count(count as nat, old(self).contents().len()) as int,
            ),
            final(self).contents() == old(self).contents().skip(
                take_count(count as nat, old(self).contents().len()) as int,
            ),
            taken@.len() == take_count(count as nat, old(self).contents().len()),
            final(self).spec_max_messages() == old(self).spec_max_messages(),
            final(self).spec_max_bytes() == old(self).spec_max_bytes(),
    {
        let mut taken: Vec<String> = Vec::new();
        let k: usize = if count < self.messages.len() {
            count
        } else {
            self.messages.len()
        };
        proof {
            assert(self.contents().len() == self.messages@.len());
            assert(views_of(taken@) =~= old(self).contents().take(0));
            assert(self.contents() =~= old(self).contents().skip(0));
        }
        let mut i: usize = 0;
        while i < k
            invariant
                i <= k,
                k == take_count(count as nat, old(self).contents().len()),
                self.max_messages == old(self).max_messages,
                self.max_bytes == old(self).max_bytes,
                old(self).wf(),
                taken@.len() == i,
                views_of(taken@) == old(self).contents().take(i as int),
                self.contents() == old(self).contents().skip(i as int),
                self.total_bytes == total_bytes_of(self.contents()),
                within_limits(self.contents(), self.spec_max_messages(), self.spec_max_bytes()),
            decreases k - i,
        {
            proof {
                assert(self.contents().len() == old(self).contents().len() - i);
            }
            let ghost before = self.contents();
            let msg = match self.messages.pop_front() {
                Some(m) => m,
                None => {
                    proof {
                        assert(false);
                    }
                    unreached()
                },
            };
            proof {
                assert(self.contents() =~= before.skip(1));
                assert(msg@ == before[0]);
                assert(before[0] == old(self).contents()[i as int]);
                assert(self.contents() =~= old(self).contents().skip(i + 1));
            }
            self.total_bytes = self.total_bytes - msg.as_str().len();
            let ghost taken_before = taken@;
            taken.push(msg);
            proof {
                assert(views_of(taken@) =~= views_of(taken_before).push(
                    old(self).contents()[i as int],
                ));
                assert(old(self).contents().take(i + 1) =~= old(self).contents().take(
                    i as int,
                ).push(old(self).contents()[i as int]));
            }
            i = i + 1;
        }
        taken
    }
}

} // verus!
