//! The transcript channel: a bounded first-in, first-out queue of byte chunks
//! that merges the two output streams of a process into one outbound stream.
//!
//! Producers append whole chunks in the order their reads complete. The
//! consumer writes the front chunk, possibly in several pieces, and only then
//! moves on to the next one, so bytes leave in exactly the order they came.

use std::collections::VecDeque;
use vstd::prelude::*;
use vstd::slice::slice_subrange;

verus! {

/// Number of chunks a session's transcript holds before producers must wait.
pub const TRANSCRIPT_CAPACITY: usize = 32;

/// Size of the buffer for each read from a process stream.
pub const CHUNK_BUFFER: usize = 1024;

/// What a transcript holds: the queued chunks, oldest first, how many bytes of
/// the oldest chunk have already left, and the bound on the number of chunks.
pub struct TranscriptView {
    pub chunks: Seq<Seq<u8>>,
    pub sent: nat,
    pub capacity: nat,
}

impl TranscriptView {
    /// No chunk is empty, the bound is kept, and the write position lies
    /// inside the oldest chunk.
    pub open spec fn wf(self) -> bool {
        &&& self.chunks.len() <= self.capacity
        &&& forall|i: int| 0 <= i < self.chunks.len() ==> (#[trigger] self.chunks[i]).len() > 0
        &&& if self.chunks.len() == 0 {
            self.sent == 0
        } else {
            self.sent < self.chunks[0].len()
        }
    }

    pub open spec fn is_empty(self) -> bool {
        self.chunks.len() == 0
    }

    pub open spec fn has_room(self) -> bool {
        self.chunks.len() < self.capacity
    }

    /// Every byte that is queued and has not left yet, in the order in which
    /// it will leave.
    pub open spec fn unsent(self) -> Seq<u8> {
        self.chunks.flatten().skip(self.sent as int)
    }

    /// The part of the oldest chunk that has not left yet.
    pub open spec fn front(self) -> Seq<u8> {
        if self.chunks.len() == 0 {
            Seq::empty()
        } else {
            self.chunks[0].skip(self.sent as int)
        }
    }

    /// Whether `chunk` would be taken: it is not empty and there is room.
    pub open spec fn takes(self, chunk: Seq<u8>) -> bool {
        chunk.len() > 0 && self.has_room()
    }

    pub open spec fn push(self, chunk: Seq<u8>) -> TranscriptView {
        TranscriptView { chunks: self.chunks.push(chunk), ..self }
    }

    /// The transcript after `n` more bytes have left, for `n` up to the
    /// length of `front()`.
    pub open spec fn advance(self, n: nat) -> TranscriptView {
        if self.chunks.len() == 0 {
            self
        } else if self.sent + n < self.chunks[0].len() {
            TranscriptView { sent: self.sent + n, ..self }
        } else {
            TranscriptView { chunks: self.chunks.drop_first(), sent: 0, ..self }
        }
    }

    pub open spec fn cleared(self) -> TranscriptView {
        TranscriptView { chunks: Seq::empty(), sent: 0, ..self }
    }
}

/// Appending a chunk appends its bytes to what is unsent.
pub proof fn lemma_push_unsent(t: TranscriptView, chunk: Seq<u8>)
    requires
        t.wf(),
    ensures
        t.push(chunk).unsent() == t.unsent() + chunk,
        t.takes(chunk) ==> t.push(chunk).wf(),
{
    t.chunks.lemma_flatten_push(chunk);
    lemma_front_prefix(t);
    assert(t.push(chunk).unsent() =~= t.unsent() + chunk);
}

/// The unwritten rest of the oldest chunk is the head of what is unsent.
pub proof fn lemma_front_prefix(t: TranscriptView)
    requires
        t.wf(),
    ensures
        t.front().len() <= t.unsent().len(),
        t.unsent().take(t.front().len() as int) == t.front(),
        t.is_empty() <==> t.unsent().len() == 0,
        t.sent <= t.chunks.flatten().len(),
{
    if t.chunks.len() > 0 {
        let whole = t.chunks.flatten();
        assert(whole == t.chunks.first() + t.chunks.drop_first().flatten());
        assert(t.unsent().take(t.front().len() as int) =~= t.front());
    } else {
        assert(t.chunks.flatten() =~= Seq::<u8>::empty());
    }
}

/// Writing `n` bytes of the front removes exactly the first `n` unsent bytes.
pub proof fn lemma_advance_unsent(t: TranscriptView, n: nat)
    requires
        t.wf(),
        n <= t.front().len(),
    ensures
        t.advance(n).wf(),
        t.advance(n).unsent() == t.unsent().skip(n as int),
{
    lemma_front_prefix(t);
    if t.chunks.len() > 0 {
        let whole = t.chunks.flatten();
        assert(whole == t.chunks.first() + t.chunks.drop_first().flatten());
        if t.sent + n < t.chunks[0].len() {
            assert(t.advance(n).unsent() =~= t.unsent().skip(n as int));
        } else {
            let rest = t.chunks.drop_first();
            assert forall|i: int| 0 <= i < rest.len() implies (#[trigger] rest[i]).len() > 0 by {
                assert(rest[i] == t.chunks[i + 1]);
            }
            assert(rest.flatten().skip(0) =~= rest.flatten());
            assert(t.advance(n).unsent() =~= t.unsent().skip(n as int));
        }
    } else {
        assert(t.unsent().skip(0) =~= t.unsent());
    }
}

/// A bounded queue of byte chunks with a write position in its oldest chunk.
pub struct Transcript {
    queue: VecDeque<Vec<u8>>,
    offset: usize,
    capacity: usize,
}

impl View for Transcript {
    type V = TranscriptView;

    closed spec fn view(&self) -> TranscriptView {
        TranscriptView {
            chunks: Seq::new(self.queue@.len(), |i: int| self.queue@[i]@),
            sent: self.offset as nat,
            capacity: self.capacity as nat,
        }
    }
}

impl Transcript {
    /// An empty transcript that holds up to `capacity` chunks.
    pub fn new(capacity: usize) -> (t: Transcript)
        ensures
            t@.wf(),
            t@.chunks.len() == 0,
            t@.sent == 0,
            t@.capacity == capacity,
    {
        Transcript { queue: VecDeque::new(), offset: 0, capacity }
    }

    /// Number of queued chunks.
    pub fn len(&self) -> (n: usize)
        ensures
            n == self@.chunks.len(),
    {
        self.queue.len()
    }

    pub fn is_empty(&self) -> (b: bool)
        ensures
            b == self@.is_empty(),
    {
        self.queue.len() == 0
    }

    /// Whether another chunk fits.
    pub fn has_room(&self) -> (b: bool)
        ensures
            b == self@.has_room(),
    {
        self.queue.len() < self.capacity
    }

    /// Appends `chunk` when it is not empty and there is room, and hands it
    /// back otherwise: a full transcript is how a slow reader holds the
    /// producers back.
    pub fn offer(&mut self, chunk: Vec<u8>) -> (refused: Option<Vec<u8>>)
        requires
            old(self)@.wf(),
        ensures
            final(self)@.wf(),
            old(self)@.takes(chunk@) ==> refused is None && final(self)@ == old(self)@.push(chunk@),
            !old(self)@.takes(chunk@) ==> refused == Some(chunk) && final(self)@ == old(self)@,
    {
        if chunk.len() == 0 || self.queue.len() >= self.capacity {
            return Some(chunk);
        }
        let ghost before = self@;
        let ghost bytes = chunk@;
        self.queue.push_back(chunk);
        proof {
            assert(self@.chunks =~= before.chunks.push(bytes));
            lemma_push_unsent(before, bytes);
        }
        None
    }

    /// The bytes to write next: the unwritten rest of the oldest chunk, or
    /// nothing when the transcript is empty.
    pub fn front(&self) -> (next: Option<&[u8]>)
        requires
            self@.wf(),
        ensures
            self@.is_empty() <==> next is None,
            next matches Some(bytes) ==> bytes@ == self@.front() && bytes@.len() > 0,
    {
        if self.queue.len() == 0 {
            None
        } else {
            let chunk = &self.queue[0];
            let rest = slice_subrange(chunk.as_slice(), self.offset, chunk.len());
            assert(rest@ =~= self@.front());
            Some(rest)
        }
    }

    /// Records that `n` bytes of `front()` were written and returns how many
    /// of them it counted: `n`, or the length of `front()` if that is less.
    pub fn advance(&mut self, n: usize) -> (counted: usize)
        requires
            old(self)@.wf(),
        ensures
            final(self)@.wf(),
            counted == if n <= old(self)@.front().len() { n as nat } else { old(self)@.front().len() },
            final(self)@ == old(self)@.advance(counted as nat),
            final(self)@.unsent() == old(self)@.unsent().skip(counted as int),
    {
        let ghost before = self@;
        if self.queue.len() == 0 {
            proof {
                lemma_advance_unsent(before, 0);
            }
            return 0;
        }
        let rest = self.queue[0].len() - self.offset;
        if n < rest {
            self.offset = self.offset + n;
            proof {
                lemma_advance_unsent(before, n as nat);
            }
            n
        } else {
            self.queue.pop_front();
            self.offset = 0;
            proof {
                assert(self@.chunks =~= before.chunks.drop_first());
                lemma_advance_unsent(before, rest as nat);
            }
            rest
        }
    }

    /// Drops every queued chunk.
    pub fn clear(&mut self)
        ensures
            final(self)@ == old(self)@.cleared(),
            final(self)@.wf(),
    {
        self.queue.clear();
        self.offset = 0;
        assert(self@.chunks =~= Seq::<Seq<u8>>::empty());
    }
}

} // verus!
