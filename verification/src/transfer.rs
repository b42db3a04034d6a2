//! Partial-transfer accounting for the encrypted channel.
//!
//! A single underlying write may transfer fewer bytes than requested, and a
//! single underlying read delivers the response in arbitrary chunks. The
//! caller performs those calls; the two operation records here decide when
//! the logical operation is complete: a `WriteOp` is done exactly when every
//! byte of the buffer has been transferred, and a `ReadOp` accumulates
//! chunks until graceful close, end of stream, or its size bound, capping
//! the buffer at the bound rather than failing.

use vstd::prelude::*;

use crate::session::TlsError;
use crate::session::TlsStage;

verus! {

/// Diagnostic code the library itself assigns when a supposedly ready
/// channel reports zero progress, or overstates its progress; a failure
/// reported by the underlying layer carries that layer's own code
/// instead.
pub const ZERO_PROGRESS: u64 = 0;

/// Ghost image of a `WriteOp`.
pub ghost struct WriteView {
    /// Length of the buffer being written.
    pub total: int,
    /// Bytes not yet transferred.
    pub remaining: int,
}

/// Progress of one `writeAll`-style full write of a buffer.
///
/// The caller repeatedly writes up to `remaining()` bytes starting at offset
/// `written()` of its buffer and records how many bytes each underlying
/// write transferred; the operation succeeds only when the cumulative count
/// reaches the buffer length.
#[derive(Debug)]
pub struct WriteOp {
    total: usize,
    remaining: usize,
}

impl View for WriteOp {
    type V = WriteView;

    closed spec fn view(&self) -> WriteView {
        WriteView { total: self.total as int, remaining: self.remaining as int }
    }
}

impl WriteOp {
    /// Bytes transferred so far.
    pub open spec fn spec_written(&self) -> int {
        self@.total - self@.remaining
    }

    pub(crate) fn begin(total: usize) -> (op: WriteOp)
        ensures
            op@.total == total as int,
            op@.remaining == total as int,
    {
        WriteOp { total, remaining: total }
    }

    /// Bytes still to transfer.
    pub fn remaining(&self) -> (r: usize)
        ensures
            r as int == self@.remaining,
    {
        self.remaining
    }

    /// Offset into the buffer at which the next underlying write starts.
    pub fn written(&self) -> (r: usize)
        requires
            self@.remaining <= self@.total,
        ensures
            r as int == self.spec_written(),
    {
        self.total - self.remaining
    }

    /// Whether every byte has been transferred.
    pub fn is_done(&self) -> (r: bool)
        ensures
            r == (self@.remaining == 0),
    {
        self.remaining == 0
    }

    /// Records that one underlying write transferred `n` bytes.
    ///
    /// A transfer of zero bytes on a ready channel, or of more bytes than
    /// were outstanding, is fatal: the operation is left unchanged and a
    /// write-stage error is returned. Otherwise the count is credited and
    /// the result says whether the whole buffer has now been transferred.
    pub fn record(&mut self, n: usize) -> (r: Result<bool, TlsError>)
        ensures
            1 <= n as int <= old(self)@.remaining ==> {
                &&& final(self)@.remaining == old(self)@.remaining - n as int
                &&& final(self)@.total == old(self)@.total
                &&& r == Ok::<bool, TlsError>(final(self)@.remaining == 0)
            },
            !(1 <= n as int <= old(self)@.remaining) ==> {
                &&& *final(self) == *old(self)
                &&& r == Err::<bool, TlsError>(
                    TlsError { stage: TlsStage::Write, code: ZERO_PROGRESS },
                )
            },
    {
        if n == 0 || n > self.remaining {
            Err(TlsError { stage: TlsStage::Write, code: ZERO_PROGRESS })
        } else {
            self.remaining = self.remaining - n;
            Ok(self.remaining == 0)
        }
    }
}

/// Ghost image of a `ReadOp`.
pub ghost struct ReadView {
    /// Bytes the size bound still allows.
    pub room: int,
    /// Bytes accumulated so far.
    pub data: Seq<u8>,
    /// Whether the stream has ended (close, end of stream, tolerated
    /// late error, or the size bound reached).
    pub done: bool,
}

/// Accumulation of one `readToClose`-style bounded read of a response.
///
/// The caller reads chunks from the channel and records each one; the
/// buffer is capped at the size bound the operation was begun with, and
/// reaching the bound is success, not failure.
#[derive(Debug)]
pub struct ReadOp {
    room: usize,
    data: Vec<u8>,
    done: bool,
}

impl View for ReadOp {
    type V = ReadView;

    closed spec fn view(&self) -> ReadView {
        ReadView { room: self.room as int, data: self.data@, done: self.done }
    }
}

impl ReadOp {
    pub(crate) fn begin(max: usize) -> (op: ReadOp)
        ensures
            op@.room == max as int,
            op@.data == Seq::<u8>::empty(),
            !op@.done,
    {
        ReadOp { room: max, data: Vec::new(), done: false }
    }

    /// Bytes accumulated so far.
    pub fn len(&self) -> (r: usize)
        ensures
            r as int == self@.data.len(),
    {
        self.data.len()
    }

    /// Whether the stream has ended and the buffer is final.
    pub fn is_done(&self) -> (r: bool)
        ensures
            r == self@.done,
    {
        self.done
    }

    /// Records one delivered chunk, keeping only what the size bound still
    /// allows; returns whether the bound has now been reached, which ends
    /// the read early with the capped buffer as a valid result.
    pub fn record_data(&mut self, chunk: &[u8]) -> (r: bool)
        requires
            !old(self)@.done,
        ensures
            final(self)@.data == old(self)@.data + chunk@.take(
                vstd::math::min(chunk@.len() as int, old(self)@.room),
            ),
            final(self)@.room == old(self)@.room - vstd::math::min(
                chunk@.len() as int,
                old(self)@.room,
            ),
            final(self)@.done == (final(self)@.room == 0),
            r == final(self)@.done,
    {
        let take: usize = if chunk.len() <= self.room {
            chunk.len()
        } else {
            self.room
        };
        let ghost data0 = self.data@;
        let ghost room0 = self.room as int;
        let mut i: usize = 0;
        while i < take
            invariant
                i <= take,
                self.room as int == room0,
                !self.done,
                take as int == vstd::math::min(chunk@.len() as int, room0),
                take <= chunk@.len(),
                self.data@ == data0 + chunk@.take(i as int),
            decreases take - i,
        {
            self.data.push(chunk[i]);
            proof {
                assert(data0 + chunk@.take(i as int) + seq![chunk@[i as int]] =~= data0
                    + chunk@.take(i as int + 1));
            }
            i = i + 1;
        }
        self.room = self.room - take;
        if self.room == 0 {
            self.done = true;
        }
        self.done
    }

    /// Records a graceful close or an end of the underlying stream: the
    /// buffer is final.
    pub fn record_close(&mut self)
        requires
            !old(self)@.done,
        ensures
            final(self)@.data == old(self)@.data,
            final(self)@.room == old(self)@.room,
            final(self)@.done,
    {
        self.done = true;
    }

    /// Records a read error from the underlying layer.
    ///
    /// Before any byte has been read such an error is fatal and the
    /// operation is left unchanged. After at least one successful read a
    /// terminating error from the peer is tolerated and treated as end of
    /// stream — a deliberate, explicit acceptance of abrupt closes that
    /// still delivered a payload.
    pub fn record_error(&mut self, code: u64) -> (r: Result<(), TlsError>)
        requires
            !old(self)@.done,
        ensures
            old(self)@.data.len() == 0 ==> {
                &&& r == Err::<(), TlsError>(TlsError { stage: TlsStage::Read, code })
                &&& *final(self) == *old(self)
            },
            old(self)@.data.len() > 0 ==> {
                &&& r == Ok::<(), TlsError>(())
                &&& final(self)@.data == old(self)@.data
                &&& final(self)@.room == old(self)@.room
                &&& final(self)@.done
            },
    {
        if self.data.len() == 0 {
            Err(TlsError { stage: TlsStage::Read, code })
        } else {
            self.done = true;
            Ok(())
        }
    }

    /// Hands the accumulated bytes out, consuming the operation.
    pub fn into_bytes(self) -> (r: Vec<u8>)
        ensures
            r@ == self@.data,
    {
        self.data
    }
}

/// Cumulative number of bytes over a sequence of per-write transfer counts.
pub open spec fn sum_of(amounts: Seq<int>) -> int
    decreases amounts.len(),
{
    if amounts.len() == 0 {
        0
    } else {
        sum_of(amounts.drop_last()) + amounts.last()
    }
}

/// A possible run of the write loop on a buffer of `total` bytes: every
/// underlying write makes positive progress and transfers no more than
/// what was still outstanding at that point — exactly the transfers that
/// `WriteOp::record` credits.
pub open spec fn write_schedule_ok(total: int, amounts: Seq<int>) -> bool {
    forall|i: int|
        0 <= i < amounts.len() ==> 1 <= #[trigger] amounts[i] <= total - sum_of(amounts.take(i))
}

proof fn lemma_write_schedule_prefix(total: int, amounts: Seq<int>)
    requires
        amounts.len() > 0,
        write_schedule_ok(total, amounts),
    ensures
        write_schedule_ok(total, amounts.drop_last()),
{
    let pre = amounts.drop_last();
    assert forall|i: int| 0 <= i < pre.len() implies 1 <= #[trigger] pre[i] <= total - sum_of(
        pre.take(i),
    ) by {
        assert(pre[i] == amounts[i]);
        assert(pre.take(i) =~= amounts.take(i));
    }
}

/// Law: the write loop never overruns. Whatever positive partial transfers
/// the channel grants, the cumulative count stays between zero and the
/// buffer length.
pub proof fn lemma_write_never_overruns(total: int, amounts: Seq<int>)
    requires
        0 <= total,
        write_schedule_ok(total, amounts),
    ensures
        0 <= sum_of(amounts) <= total,
    decreases amounts.len(),
{
    if amounts.len() > 0 {
        let pre = amounts.drop_last();
        lemma_write_schedule_prefix(total, amounts);
        lemma_write_never_overruns(total, pre);
        assert(amounts.take(amounts.len() - 1) =~= pre);
        assert(1 <= amounts.last() <= total - sum_of(pre));
    }
}

proof fn lemma_write_progress(total: int, amounts: Seq<int>)
    requires
        0 <= total,
        write_schedule_ok(total, amounts),
    ensures
        sum_of(amounts) >= vstd::math::min(amounts.len() as int, total),
    decreases amounts.len(),
{
    if amounts.len() > 0 {
        let pre = amounts.drop_last();
        lemma_write_schedule_prefix(total, amounts);
        lemma_write_progress(total, pre);
        lemma_write_never_overruns(total, pre);
        assert(amounts.take(amounts.len() - 1) =~= pre);
        assert(1 <= amounts.last() <= total - sum_of(pre));
    }
}

/// Law: a full write of a buffer of length `total` completes. Each
/// underlying write may transfer an arbitrary positive amount up to what
/// is outstanding, yet once enough writes have been issued — at most one
/// per byte — the cumulative count equals the buffer length exactly.
pub proof fn lemma_write_all_completes(total: int, amounts: Seq<int>)
    requires
        0 <= total,
        write_schedule_ok(total, amounts),
        amounts.len() >= total,
    ensures
        sum_of(amounts) == total,
{
    lemma_write_never_overruns(total, amounts);
    lemma_write_progress(total, amounts);
}

/// The buffer the read loop accumulates from `chunks` with `room` bytes of
/// its size bound left: each chunk is kept up to the remaining room, and
/// the room shrinks by what was kept — exactly the steps that
/// `ReadOp::record_data` takes.
pub open spec fn read_run(room: int, chunks: Seq<Seq<u8>>) -> Seq<u8>
    decreases chunks.len(),
{
    if chunks.len() == 0 {
        Seq::empty()
    } else {
        let t = vstd::math::min(chunks.first().len() as int, room);
        chunks.first().take(t) + read_run(room - t, chunks.drop_first())
    }
}

proof fn lemma_read_run_no_room(chunks: Seq<Seq<u8>>)
    ensures
        read_run(0, chunks) == Seq::<u8>::empty(),
    decreases chunks.len(),
{
    if chunks.len() > 0 {
        lemma_read_run_no_room(chunks.drop_first());
        assert(chunks.first().take(0) =~= Seq::<u8>::empty());
        assert(chunks.first().take(0) + read_run(0, chunks.drop_first()) =~= Seq::<u8>::empty());
    }
}

/// Law: a bounded read returns exactly the first `room` bytes the peer
/// delivered, or all of them where fewer came: the accumulated buffer is
/// the prefix of the concatenated chunks, cut at the size bound, and
/// reaching the bound is a valid result, never an error.
pub proof fn lemma_read_is_capped_prefix(room: int, chunks: Seq<Seq<u8>>)
    requires
        0 <= room,
    ensures
        read_run(room, chunks) == chunks.flatten().take(
            vstd::math::min(room, chunks.flatten().len() as int),
        ),
    decreases chunks.len(),
{
    if chunks.len() == 0 {
        assert(chunks.flatten().take(0) =~= Seq::<u8>::empty());
    } else {
        let c = chunks.first();
        let rest = chunks.drop_first();
        let fl = rest.flatten();
        let t = vstd::math::min(c.len() as int, room);
        assert(chunks.flatten() == c + fl);
        lemma_read_is_capped_prefix(room - t, rest);
        if t == c.len() {
            if room - t <= fl.len() {
                assert(c + fl.take(room - t) =~= (c + fl).take(
                    vstd::math::min(room, (c + fl).len() as int),
                ));
                assert(c.take(t) =~= c);
            } else {
                assert(c.take(t) =~= c);
                assert(c + fl.take(fl.len() as int) =~= (c + fl).take(
                    vstd::math::min(room, (c + fl).len() as int),
                ));
            }
        } else {
            lemma_read_run_no_room(rest);
            assert(c.take(room) + Seq::<u8>::empty() =~= (c + fl).take(
                vstd::math::min(room, (c + fl).len() as int),
            ));
        }
    }
}

/// Law: a response stream that ends by graceful close within the size
/// bound is returned exactly — every delivered byte, no truncation.
pub proof fn lemma_read_to_close_exact(room: int, chunks: Seq<Seq<u8>>)
    requires
        0 <= room,
        chunks.flatten().len() <= room,
    ensures
        read_run(room, chunks) == chunks.flatten(),
{
    lemma_read_is_capped_prefix(room, chunks);
    assert(chunks.flatten().take(chunks.flatten().len() as int) =~= chunks.flatten());
}

} // verus!
