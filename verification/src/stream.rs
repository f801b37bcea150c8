//! The byte stream of an opened data channel.
//!
//! Inbound messages arrive as whole chunks; a reader asks for as many bytes as
//! its destination has room for. What does not fit stays buffered and is
//! served by the next read, before any further chunk is taken from the
//! channel.
use vstd::prelude::*;

verus! {

/// The smaller of two lengths.
pub open spec fn min_len(a: int, b: int) -> int {
    if a <= b {
        a
    } else {
        b
    }
}

/// The bytes a read with room for `space` bytes takes from `pending`.
pub open spec fn served(pending: Seq<u8>, space: int) -> Seq<u8> {
    pending.take(min_len(pending.len() as int, space))
}

/// The bytes of `pending` that stay buffered after a read with room for
/// `space` bytes.
pub open spec fn left_over(pending: Seq<u8>, space: int) -> Seq<u8> {
    pending.skip(min_len(pending.len() as int, space))
}

/// A destination of `dst.len()` bytes after `data` was written to its front.
pub open spec fn written(dst: Seq<u8>, data: Seq<u8>) -> Seq<u8> {
    data + dst.skip(data.len() as int)
}

/// What the channel's inbound queue yielded when polled.
pub enum Polled {
    /// One inbound message.
    Chunk(Vec<u8>),
    /// An inbound message that could not be read as bytes.
    Failed(String),
    /// The channel is closed and nothing more will arrive.
    Closed,
    /// Nothing has arrived yet.
    Pending,
}

/// The outcome of one read.
#[derive(Debug, PartialEq, Eq)]
pub enum ReadOutcome {
    /// This many bytes were written to the front of the destination; zero
    /// means the end of the stream (or a destination without room).
    Ready(usize),
    /// The inbound message could not be read; the text says why.
    Failed(String),
    /// Nothing to read yet.
    Pending,
    /// An empty message arrived and nothing is buffered: there is still
    /// nothing to read, and the channel is to be polled again at once.
    Retry,
}

/// Inbound bytes that were received but not yet read.
pub struct InboundBuffer {
    pending: Vec<u8>,
}

impl View for InboundBuffer {
    type V = Seq<u8>;

    closed spec fn view(&self) -> Seq<u8> {
        self.pending@
    }
}

impl InboundBuffer {
    /// A buffer holding nothing.
    pub fn new() -> (res: Self)
        ensures
            res@ == Seq::<u8>::empty(),
    {
        InboundBuffer { pending: Vec::new() }
    }

    /// The number of buffered bytes.
    pub fn len(&self) -> (res: usize)
        ensures
            res == self@.len(),
    {
        self.pending.len()
    }

    /// Whether nothing is buffered.
    pub fn is_empty(&self) -> (res: bool)
        ensures
            res == (self@.len() == 0),
    {
        self.pending.len() == 0
    }

    /// Moves as many buffered bytes as fit to the front of `dst`.
    fn serve(&mut self, dst: &mut [u8]) -> (n: usize)
        ensures
            n == min_len(old(self)@.len() as int, old(dst)@.len() as int),
            final(dst)@ == written(old(dst)@, served(old(self)@, old(dst)@.len() as int)),
            final(self)@ == left_over(old(self)@, old(dst)@.len() as int),
    {
        let space = dst.len();
        let avail = self.pending.len();
        let n = if avail <= space {
            avail
        } else {
            space
        };
        let ghost dst0 = dst@;
        let mut i: usize = 0;
        while i < n
            invariant
                n <= self.pending@.len(),
                n <= dst0.len(),
                i <= n,
                dst@.len() == dst0.len(),
                forall|j: int| 0 <= j < i ==> dst@[j] == self.pending@[j],
                forall|j: int| i <= j < dst0.len() ==> dst@[j] == dst0[j],
            decreases n - i,
        {
            dst[i] = self.pending[i];
            i = i + 1;
        }
        let rest = self.pending.split_off(n);
        proof {
            assert(dst@ =~= written(dst0, served(old(self)@, dst0.len() as int)));
        }
        self.pending = rest;
        n
    }

    /// The first half of a read: serves the destination from buffered bytes.
    ///
    /// Returns `None`, changing nothing, exactly when nothing is buffered; the
    /// caller then polls the channel and finishes the read with
    /// [`InboundBuffer::read_polled`].
    pub fn read_buffered(&mut self, dst: &mut [u8]) -> (res: Option<usize>)
        ensures
            res is None <==> old(self)@.len() == 0,
            res is None ==> final(self)@ == old(self)@ && final(dst)@ == old(dst)@,
            res matches Some(n) ==> {
                &&& n == min_len(old(self)@.len() as int, old(dst)@.len() as int)
                &&& final(dst)@ == written(old(dst)@, served(old(self)@, old(dst)@.len() as int))
                &&& final(self)@ == left_over(old(self)@, old(dst)@.len() as int)
            },
    {
        if self.pending.len() == 0 {
            None
        } else {
            Some(self.serve(dst))
        }
    }

    /// The second half of a read: acts on what the channel yielded.
    ///
    /// A chunk is appended to what is buffered and the destination is served
    /// from the front; what does not fit stays buffered. When that leaves a
    /// destination with room still without a byte (an empty message with
    /// nothing buffered), the read is not over: the answer is `Retry`, so that
    /// zero bytes are only ever read at the end of the stream. A closed
    /// channel reads as zero bytes. A failed message is reported. Nothing else
    /// changes the buffer or the destination.
    pub fn read_polled(&mut self, dst: &mut [u8], polled: Polled) -> (res: ReadOutcome)
        ensures
            match polled {
                Polled::Chunk(c) => {
                    let all = old(self)@ + c@;
                    &&& final(dst)@ == written(old(dst)@, served(all, old(dst)@.len() as int))
                    &&& final(self)@ == left_over(all, old(dst)@.len() as int)
                    &&& if all.len() == 0 && old(dst)@.len() > 0 {
                        res == ReadOutcome::Retry
                    } else {
                        res == ReadOutcome::Ready(
                            min_len(all.len() as int, old(dst)@.len() as int) as usize,
                        )
                    }
                },
                Polled::Failed(e) => res == ReadOutcome::Failed(e) && final(self)@ == old(self)@
                    && final(dst)@ == old(dst)@,
                Polled::Closed => res == ReadOutcome::Ready(0) && final(self)@ == old(self)@
                    && final(dst)@ == old(dst)@,
                Polled::Pending => res == ReadOutcome::Pending && final(self)@ == old(self)@
                    && final(dst)@ == old(dst)@,
            },
            old(dst)@.len() > 0 && !(polled is Closed) ==> (res matches ReadOutcome::Ready(n)
                ==> n > 0),
    {
        match polled {
            Polled::Chunk(mut c) => {
                self.pending.append(&mut c);
                if self.pending.len() == 0 && dst.len() > 0 {
                    ReadOutcome::Retry
                } else {
                    let n = self.serve(dst);
                    ReadOutcome::Ready(n)
                }
            },
            Polled::Failed(e) => ReadOutcome::Failed(e),
            Polled::Closed => ReadOutcome::Ready(0),
            Polled::Pending => ReadOutcome::Pending,
        }
    }
}

/// The inbound item for one message event of the channel: its bytes when it
/// carried binary data (`Some`), else an error naming what it carried, by its
/// debug text `shown`.
pub fn inbound_message(data: Option<Vec<u8>>, shown: &str) -> (res: Result<Vec<u8>, String>)
    ensures
        match data {
            Some(b) => res == Ok::<Vec<u8>, String>(b),
            None => res is Err && res->Err_0@ == "Expected ArrayBuffer, received: \""@ + shown@
                + "\""@,
        },
{
    match data {
        Some(b) => Ok(b),
        None => {
            let mut text = "Expected ArrayBuffer, received: \"".to_owned();
            text.append(shown);
            text.append("\"");
            Err(text)
        },
    }
}

/// The outcome of writing `len` bytes: all of them when the channel took the
/// message, else the channel's error.
pub fn write_result(len: usize, sent: Result<(), String>) -> (res: Result<usize, String>)
    ensures
        match sent {
            Ok(()) => res == Ok::<usize, String>(len),
            Err(e) => res == Err::<usize, String>(e),
        },
{
    match sent {
        Ok(()) => Ok(len),
        Err(e) => Err(e),
    }
}

/// The bytes a run of reads delivers, one after the other, starting with
/// `pending` buffered. Step `i` of the run is a read with room for
/// `steps[i].0` bytes after the message `steps[i].1` arrived (empty when the
/// read was served from the buffer alone, or when nothing arrived).
pub open spec fn delivered(pending: Seq<u8>, steps: Seq<(nat, Seq<u8>)>) -> Seq<u8>
    decreases steps.len(),
{
    if steps.len() == 0 {
        Seq::empty()
    } else {
        let all = pending + steps[0].1;
        served(all, steps[0].0 as int) + delivered(
            left_over(all, steps[0].0 as int),
            steps.drop_first(),
        )
    }
}

/// The bytes still buffered after a run of reads.
pub open spec fn remaining(pending: Seq<u8>, steps: Seq<(nat, Seq<u8>)>) -> Seq<u8>
    decreases steps.len(),
{
    if steps.len() == 0 {
        pending
    } else {
        let all = pending + steps[0].1;
        remaining(left_over(all, steps[0].0 as int), steps.drop_first())
    }
}

/// The messages that arrived during a run of reads, in arrival order.
pub open spec fn arrived(steps: Seq<(nat, Seq<u8>)>) -> Seq<u8>
    decreases steps.len(),
{
    if steps.len() == 0 {
        Seq::empty()
    } else {
        steps[0].1 + arrived(steps.drop_first())
    }
}

/// One read loses and invents nothing: what it takes, followed by what stays
/// buffered, is what was buffered, and it takes no more than it has room for.
pub proof fn lemma_read_conserves(pending: Seq<u8>, space: nat)
    ensures
        served(pending, space as int) + left_over(pending, space as int) == pending,
        served(pending, space as int).len() <= space,
        served(pending, space as int).len() == pending.len() || served(pending, space as int).len()
            == space,
{
    assert(served(pending, space as int) + left_over(pending, space as int) =~= pending);
}

/// Reading delivers the stream in order: whatever the sizes of the reads and
/// whatever messages arrive between them, the bytes the reads deliver, one
/// after the other, followed by what is still buffered, are exactly the bytes
/// that were buffered followed by every message that arrived, in arrival
/// order. No byte is lost, duplicated or reordered.
pub proof fn lemma_reads_deliver_in_order(pending: Seq<u8>, steps: Seq<(nat, Seq<u8>)>)
    ensures
        delivered(pending, steps) + remaining(pending, steps) == pending + arrived(steps),
    decreases steps.len(),
{
    if steps.len() > 0 {
        let all = pending + steps[0].1;
        let rest = left_over(all, steps[0].0 as int);
        lemma_reads_deliver_in_order(rest, steps.drop_first());
        lemma_read_conserves(all, steps[0].0);
        assert(delivered(pending, steps) + remaining(pending, steps) =~= served(
            all,
            steps[0].0 as int,
        ) + (delivered(rest, steps.drop_first()) + remaining(rest, steps.drop_first())));
        assert(pending + arrived(steps) =~= all + arrived(steps.drop_first()));
    }
}

/// A read served from the buffer alone is a step of a run in which no
/// message arrived.
pub proof fn lemma_buffered_read_is_a_step(pending: Seq<u8>, space: nat)
    ensures
        pending + Seq::<u8>::empty() == pending,
        served(pending + Seq::<u8>::empty(), space as int) == served(pending, space as int),
        left_over(pending + Seq::<u8>::empty(), space as int) == left_over(pending, space as int),
{
    assert(pending + Seq::<u8>::empty() =~= pending);
}

/// A read writes exactly the bytes it takes to the front of the destination
/// and leaves the rest of the destination as it was; the destination keeps
/// its length.
pub proof fn lemma_read_writes_front_only(dst: Seq<u8>, pending: Seq<u8>)
    ensures
        ({
            let data = served(pending, dst.len() as int);
            let out = written(dst, data);
            &&& out.len() == dst.len()
            &&& forall|i: int| 0 <= i < data.len() ==> out[i] == pending[i]
            &&& forall|i: int| data.len() <= i < dst.len() ==> out[i] == dst[i]
        }),
{
}

/// A read with room for everything buffered takes all of it and leaves
/// nothing behind.
pub proof fn lemma_enough_room_drains(pending: Seq<u8>, space: nat)
    requires
        pending.len() <= space,
    ensures
        served(pending, space as int) == pending,
        left_over(pending, space as int) == Seq::<u8>::empty(),
{
    assert(served(pending, space as int) =~= pending);
    assert(left_over(pending, space as int) =~= Seq::<u8>::empty());
}

} // verus!
