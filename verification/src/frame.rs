//! The frame codec. On the wire a frame is a 4-byte big-endian length
//! followed by that many payload bytes. Outbound, the length placeholder is
//! reserved first and patched in place once the payload is complete.
//! Inbound, an accumulator splits an arbitrarily chunked byte stream into
//! complete frames plus a remainder; a frame whose declared length exceeds
//! the configured maximum is dropped without disturbing the frames after it.

use vstd::prelude::*;
use vstd::arithmetic::div_mod::{lemma_fundamental_div_mod, lemma_fundamental_div_mod_converse};
use crate::helper_constants::MAX_MSG_SIZE;

verus! {

/// The 4-byte big-endian encoding of a length.
pub open spec fn be32(n: int) -> Seq<u8> {
    seq![
        ((n / 0x1000000) % 256) as u8,
        ((n / 0x10000) % 256) as u8,
        ((n / 0x100) % 256) as u8,
        (n % 256) as u8,
    ]
}

/// The length a 4-byte big-endian prefix declares.
pub open spec fn be32_val(s: Seq<u8>) -> int {
    (s[0] as int) * 0x1000000 + (s[1] as int) * 0x10000 + (s[2] as int) * 0x100 + (s[3] as int)
}

/// Reading back an encoded length gives the length.
pub proof fn lemma_be32_round_trip(n: int)
    requires
        0 <= n < 0x100000000,
    ensures
        be32_val(be32(n)) == n,
{
    let b0 = n / 0x1000000;
    lemma_fundamental_div_mod(n, 0x1000000);
    let r0 = n % 0x1000000;
    lemma_fundamental_div_mod(r0, 0x10000);
    let q1 = r0 / 0x10000;
    let r1 = r0 % 0x10000;
    lemma_fundamental_div_mod(r1, 0x100);
    let q2 = r1 / 0x100;
    let r2 = r1 % 0x100;
    lemma_fundamental_div_mod_converse(b0, 256, 0, b0);
    lemma_fundamental_div_mod_converse(n, 0x10000, b0 * 256 + q1, r1);
    lemma_fundamental_div_mod_converse(b0 * 256 + q1, 256, b0, q1);
    lemma_fundamental_div_mod_converse(n, 0x100, (b0 * 256 + q1) * 256 + q2, r2);
    lemma_fundamental_div_mod_converse((b0 * 256 + q1) * 256 + q2, 256, b0 * 256 + q1, q2);
    lemma_fundamental_div_mod_converse(n, 256, ((b0 * 256 + q1) * 256 + q2), r2);
}

/// Encodes one outbound frame: reserves the 4-byte length placeholder,
/// appends the payload, then patches the placeholder in place.
pub fn encode_frame(payload: &Vec<u8>) -> (r: Vec<u8>)
    requires
        payload@.len() < 0x100000000,
    ensures
        r@ == be32(payload@.len() as int) + payload@,
{
    let mut buf: Vec<u8> = Vec::new();
    buf.push(0);
    buf.push(0);
    buf.push(0);
    buf.push(0);
    let mut i: usize = 0;
    while i < payload.len()
        invariant
            0 <= i <= payload@.len(),
            buf@.len() == 4 + i,
            forall|k: int| 0 <= k < 4 ==> #[trigger] buf@[k] == 0u8,
            forall|k: int| 0 <= k < i ==> #[trigger] buf@[4 + k] == payload@[k],
        decreases payload@.len() - i,
    {
        buf.push(payload[i]);
        i = i + 1;
    }
    let n: usize = buf.len() - 4;
    buf[0] = ((n / 0x1000000) % 256) as u8;
    buf[1] = ((n / 0x10000) % 256) as u8;
    buf[2] = ((n / 0x100) % 256) as u8;
    buf[3] = (n % 256) as u8;
    proof {
        let target = be32(payload@.len() as int) + payload@;
        assert forall|j: int| 0 <= j < buf@.len() implies buf@[j] == target[j] by {
            if j >= 4 {
                assert(buf@[4 + (j - 4)] == payload@[j - 4]);
            }
        }
        assert(buf@ =~= target);
    }
    buf
}

/// The bytes of `v` from `from` (inclusive) to `to` (exclusive).
pub fn vec_subrange(v: &Vec<u8>, from: usize, to: usize) -> (r: Vec<u8>)
    requires
        from <= to <= v@.len(),
    ensures
        r@ == v@.subrange(from as int, to as int),
{
    let mut r: Vec<u8> = Vec::new();
    let mut i: usize = from;
    while i < to
        invariant
            from <= i <= to <= v@.len(),
            r@.len() == i - from,
            forall|k: int| 0 <= k < i - from ==> #[trigger] r@[k] == v@[from + k],
        decreases to - i,
    {
        r.push(v[i]);
        i = i + 1;
    }
    proof {
        assert(r@ =~= v@.subrange(from as int, to as int));
    }
    r
}

/// Reads the length a frame header declares.
pub fn read_declared_len(buf: &Vec<u8>) -> (r: u32)
    requires
        buf@.len() >= 4,
    ensures
        r as int == be32_val(buf@.subrange(0, 4)),
{
    let b0 = buf[0] as u32;
    let b1 = buf[1] as u32;
    let b2 = buf[2] as u32;
    let b3 = buf[3] as u32;
    b0 * 0x1000000 + b1 * 0x10000 + b2 * 0x100 + b3
}

/// The complete frames at the head of an accumulated byte stream. A frame
/// whose declared length exceeds `max` is skipped once all its bytes have
/// arrived; the frames after it are unaffected.
pub open spec fn complete_frames(b: Seq<u8>, max: int) -> Seq<Seq<u8>>
    decreases b.len(),
{
    if b.len() < 4 {
        Seq::empty()
    } else {
        let size = be32_val(b.subrange(0, 4));
        if b.len() - 4 < size {
            Seq::empty()
        } else if size > max {
            complete_frames(b.subrange(4 + size, b.len() as int), max)
        } else {
            seq![b.subrange(4, 4 + size)]
                + complete_frames(b.subrange(4 + size, b.len() as int), max)
        }
    }
}

/// What remains of an accumulated byte stream after its complete frames.
pub open spec fn frames_rest(b: Seq<u8>, max: int) -> Seq<u8>
    decreases b.len(),
{
    if b.len() < 4 {
        b
    } else {
        let size = be32_val(b.subrange(0, 4));
        if b.len() - 4 < size {
            b
        } else {
            frames_rest(b.subrange(4 + size, b.len() as int), max)
        }
    }
}

/// Accumulates the inbound byte stream and hands out complete frames.
pub struct FrameAccumulator {
    acc: Vec<u8>,
}

impl FrameAccumulator {
    pub closed spec fn view(&self) -> Seq<u8> {
        self.acc@
    }

    pub fn new() -> (r: FrameAccumulator)
        ensures
            r@ == Seq::<u8>::empty(),
    {
        FrameAccumulator { acc: Vec::new() }
    }

    /// Feeds one chunk of bytes and returns the payloads of every frame it
    /// completes, in order; the unconsumed remainder is retained.
    pub fn feed(&mut self, chunk: &Vec<u8>) -> (out: Vec<Vec<u8>>)
        ensures
            out.deep_view() == complete_frames(old(self)@ + chunk@, MAX_MSG_SIZE as int),
            final(self)@ == frames_rest(old(self)@ + chunk@, MAX_MSG_SIZE as int),
    {
        let mut i: usize = 0;
        while i < chunk.len()
            invariant
                0 <= i <= chunk@.len(),
                self.acc@ == old(self)@ + chunk@.subrange(0, i as int),
            decreases chunk@.len() - i,
        {
            self.acc.push(chunk[i]);
            i = i + 1;
            proof {
                assert(old(self)@ + chunk@.subrange(0, i - 1) + seq![chunk@[i - 1]]
                    =~= old(self)@ + chunk@.subrange(0, i as int));
            }
        }
        proof {
            assert(self.acc@ =~= old(self)@ + chunk@);
        }
        let ghost total = self.acc@;
        let mut out: Vec<Vec<u8>> = Vec::new();
        proof {
            assert(out.deep_view() =~~= Seq::<Seq<u8>>::empty());
        }
        loop
            invariant
                complete_frames(total, MAX_MSG_SIZE as int)
                    =~~= out.deep_view() + complete_frames(self.acc@, MAX_MSG_SIZE as int),
                frames_rest(total, MAX_MSG_SIZE as int)
                    == frames_rest(self.acc@, MAX_MSG_SIZE as int),
            ensures
                complete_frames(self.acc@, MAX_MSG_SIZE as int) =~~= Seq::<Seq<u8>>::empty(),
                frames_rest(self.acc@, MAX_MSG_SIZE as int) == self.acc@,
            decreases self.acc@.len(),
        {
            if self.acc.len() < 4 {
                break;
            }
            let size64: u64 = read_declared_len(&self.acc) as u64;
            let avail: u64 = (self.acc.len() - 4) as u64;
            if avail < size64 {
                break;
            }
            let size: usize = size64 as usize;
            let ghost b = self.acc@;
            let payload = vec_subrange(&self.acc, 4, 4 + size);
            let rest = vec_subrange(&self.acc, 4 + size, self.acc.len());
            self.acc = rest;
            if size <= MAX_MSG_SIZE {
                let ghost old_out = out.deep_view();
                out.push(payload);
                proof {
                    assert(out.deep_view() =~~= old_out.push(payload@));
                    assert(complete_frames(b, MAX_MSG_SIZE as int)
                        =~~= seq![payload@] + complete_frames(self.acc@, MAX_MSG_SIZE as int));
                    assert(old_out + (seq![payload@]
                        + complete_frames(self.acc@, MAX_MSG_SIZE as int))
                        =~~= out.deep_view() + complete_frames(self.acc@, MAX_MSG_SIZE as int));
                }
            }
        }
        proof {
            assert(out.deep_view() + Seq::<Seq<u8>>::empty() =~~= out.deep_view());
        }
        out
    }
}

/// Reading one frame at the head of a buffer, as the reader loop does: the
/// declared size, the payload when it has fully arrived, and the bytes left.
pub fn read_msg(buf: &Vec<u8>) -> (r: (usize, Option<Vec<u8>>, Vec<u8>))
    ensures
        buf@.len() < 4 ==> r.0 == 0 && r.1 is None && r.2@ == buf@,
        buf@.len() >= 4 ==> {
            let size = be32_val(buf@.subrange(0, 4));
            &&& r.0 == size
            &&& (buf@.len() - 4 >= size ==> (r.1 matches Some(p)
                && p@ == buf@.subrange(4, 4 + size)
                && r.2@ == buf@.subrange(4 + size, buf@.len() as int)))
            &&& (buf@.len() - 4 < size ==> r.1 is None && r.2@ == buf@)
        },
{
    if buf.len() < 4 {
        return (0, None, vec_subrange(buf, 0, buf.len()));
    }
    let size64: u64 = read_declared_len(buf) as u64;
    let size: usize = size64 as usize;
    let avail: u64 = (buf.len() - 4) as u64;
    if avail >= size64 {
        let payload = vec_subrange(buf, 4, 4 + size);
        let rest = vec_subrange(buf, 4 + size, buf.len());
        (size, Some(payload), rest)
    } else {
        (size, None, vec_subrange(buf, 0, buf.len()))
    }
}

/// Frame integrity: an encoded frame declares exactly its payload's length,
/// and feeding it to the stream splitter yields exactly that payload back.
pub proof fn lemma_frame_round_trip(payload: Seq<u8>, max: int)
    requires
        0 <= payload.len() <= max,
        max < 0x100000000,
    ensures
        complete_frames(be32(payload.len() as int) + payload, max) =~= seq![payload],
        frames_rest(be32(payload.len() as int) + payload, max) =~= Seq::<u8>::empty(),
{
    let f = be32(payload.len() as int) + payload;
    let n = payload.len() as int;
    lemma_be32_round_trip(n);
    assert(f.subrange(0, 4) =~= be32(n));
    assert(be32_val(f.subrange(0, 4)) == n);
    assert(f.subrange(4, 4 + n) =~= payload);
    assert(f.subrange(4 + n, f.len() as int) =~= Seq::<u8>::empty());
    assert(complete_frames(f.subrange(4 + n, f.len() as int), max) =~= Seq::<Seq<u8>>::empty());
    assert(complete_frames(f, max) =~= seq![payload] + complete_frames(f.subrange(4 + n, f.len() as int), max));
    assert(frames_rest(f, max) == frames_rest(f.subrange(4 + n, f.len() as int), max));
}

/// Partial-read resilience: splitting a byte stream that arrives in two
/// parts yields the same frames as splitting it whole — processing the
/// first part and then the retained remainder plus the second part loses
/// and reorders nothing. Applied inductively, the frames recovered from a
/// stream are the same however it is chunked.
pub proof fn lemma_frames_chunked(b1: Seq<u8>, b2: Seq<u8>, max: int)
    ensures
        complete_frames(b1 + b2, max)
            =~= complete_frames(b1, max) + complete_frames(frames_rest(b1, max) + b2, max),
        frames_rest(b1 + b2, max) == frames_rest(frames_rest(b1, max) + b2, max),
    decreases b1.len(),
{
    if b1.len() < 4 {
        assert(frames_rest(b1, max) + b2 =~= b1 + b2);
        assert(complete_frames(b1, max) + complete_frames(b1 + b2, max)
            =~= complete_frames(b1 + b2, max));
    } else {
        let size = be32_val(b1.subrange(0, 4));
        assert((b1 + b2).subrange(0, 4) =~= b1.subrange(0, 4));
        if b1.len() - 4 < size {
            assert(frames_rest(b1, max) + b2 =~= b1 + b2);
            assert(complete_frames(b1, max) + complete_frames(b1 + b2, max)
                =~= complete_frames(b1 + b2, max));
        } else {
            let tail = b1.subrange(4 + size, b1.len() as int);
            assert((b1 + b2).len() - 4 >= size);
            assert((b1 + b2).subrange(4, 4 + size) =~= b1.subrange(4, 4 + size));
            assert((b1 + b2).subrange(4 + size, (b1 + b2).len() as int) =~= tail + b2);
            lemma_frames_chunked(tail, b2, max);
            if size > max {
                assert(complete_frames(b1 + b2, max) == complete_frames(tail + b2, max));
                assert(complete_frames(b1, max) == complete_frames(tail, max));
            } else {
                assert(complete_frames(b1 + b2, max)
                    =~= seq![b1.subrange(4, 4 + size)] + complete_frames(tail + b2, max));
            }
        }
    }
}

} // verus!
