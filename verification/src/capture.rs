//! Bounded capture of the child's diagnostic stream: bytes are retained up
//! to a fixed cap, and anything past the cap is drained but discarded, so a
//! verbose child is never back-pressured.

use vstd::prelude::*;

verus! {

/// Ghost state of a bounded capture buffer.
pub struct CaptureModel {
    pub cap: nat,
    pub bytes: Seq<u8>,
    pub truncated: bool,
}

/// The state of a fresh buffer with the given cap.
pub open spec fn empty_capture(cap: nat) -> CaptureModel {
    CaptureModel { cap, bytes: Seq::empty(), truncated: false }
}

/// What feeding one chunk does to the state: retain up to the cap, discard
/// the rest, and record whether anything was ever discarded.
pub open spec fn push_chunk_spec(s: CaptureModel, chunk: Seq<u8>) -> CaptureModel {
    let total = s.bytes + chunk;
    CaptureModel {
        cap: s.cap,
        bytes: if total.len() <= s.cap {
            total
        } else {
            total.take(s.cap as int)
        },
        truncated: s.truncated || total.len() > s.cap,
    }
}

/// Byte sink with a fixed retention cap.
#[derive(Debug)]
pub struct StderrCapture {
    buf: Vec<u8>,
    cap: usize,
    truncated: bool,
}

impl View for StderrCapture {
    type V = CaptureModel;

    closed spec fn view(&self) -> CaptureModel {
        CaptureModel { cap: self.cap as nat, bytes: self.buf@, truncated: self.truncated }
    }
}

impl StderrCapture {
    /// The buffer never retains more than its cap.
    pub closed spec fn wf(&self) -> bool {
        self.buf@.len() <= self.cap
    }

    pub fn new(cap: usize) -> (r: Self)
        ensures
            r@ == empty_capture(cap as nat),
            r.wf(),
    {
        let r = StderrCapture { buf: Vec::new(), cap, truncated: false };
        proof {
            assert(r@.bytes =~= empty_capture(cap as nat).bytes);
        }
        r
    }

    /// Feed one chunk read from the stream.
    pub fn push_chunk(&mut self, chunk: &Vec<u8>)
        requires
            old(self).wf(),
        ensures
            final(self)@ == push_chunk_spec(old(self)@, chunk@),
            final(self).wf(),
    {
        let mut j: usize = 0;
        while j < chunk.len() && self.buf.len() < self.cap
            invariant
                j <= chunk.len(),
                self.cap == old(self).cap,
                self.truncated == old(self).truncated,
                self.buf@ == old(self).buf@ + chunk@.take(j as int),
                self.buf@.len() == old(self).buf@.len() + j,
                self.buf@.len() <= self.cap,
            decreases chunk.len() - j,
        {
            self.buf.push(chunk[j]);
            proof {
                assert(old(self).buf@ + chunk@.take(j as int + 1) =~= (old(self).buf@
                    + chunk@.take(j as int)).push(chunk@[j as int]));
            }
            j += 1;
        }
        if j < chunk.len() {
            self.truncated = true;
            proof {
                let total = old(self)@.bytes + chunk@;
                assert(total.len() > self@.cap);
                assert(self@.bytes =~= total.take(self@.cap as int));
            }
        } else {
            proof {
                assert(self@.bytes =~= old(self)@.bytes + chunk@);
            }
        }
    }

    /// The bytes retained so far.
    pub fn bytes(&self) -> (r: &Vec<u8>)
        ensures
            r@ == self@.bytes,
    {
        &self.buf
    }

    /// Whether any byte past the cap was discarded.
    pub fn truncated(&self) -> (r: bool)
        ensures
            r == self@.truncated,
    {
        self.truncated
    }

    /// The retention cap this buffer was created with.
    pub fn cap(&self) -> (r: usize)
        ensures
            r as nat == self@.cap,
    {
        self.cap
    }

    /// Hand the retained bytes and the truncation flag over.
    pub fn into_parts(self) -> (r: (Vec<u8>, bool))
        ensures
            r.0@ == self@.bytes,
            r.1 == self@.truncated,
    {
        (self.buf, self.truncated)
    }
}

/// All bytes of a sequence of chunks, in order.
pub open spec fn concat_chunks(chunks: Seq<Seq<u8>>) -> Seq<u8>
    decreases chunks.len(),
{
    if chunks.len() == 0 {
        Seq::empty()
    } else {
        concat_chunks(chunks.drop_last()) + chunks.last()
    }
}

/// Feeding a sequence of chunks, in order, starting from `s`.
pub open spec fn fold_chunks(s: CaptureModel, chunks: Seq<Seq<u8>>) -> CaptureModel
    decreases chunks.len(),
{
    if chunks.len() == 0 {
        s
    } else {
        push_chunk_spec(fold_chunks(s, chunks.drop_last()), chunks.last())
    }
}

/// Bounded-capture law: feeding N bytes, in any chunking, to a fresh buffer
/// with cap C retains the input exactly with no truncation where N <= C, and
/// retains exactly the first C bytes with the truncation flag set where
/// N > C.
pub proof fn lemma_bounded_capture(cap: nat, chunks: Seq<Seq<u8>>)
    ensures
        fold_chunks(empty_capture(cap), chunks).cap == cap,
        concat_chunks(chunks).len() <= cap ==> fold_chunks(empty_capture(cap), chunks)
            == (CaptureModel { cap, bytes: concat_chunks(chunks), truncated: false }),
        concat_chunks(chunks).len() > cap ==> fold_chunks(empty_capture(cap), chunks)
            == (CaptureModel {
            cap,
            bytes: concat_chunks(chunks).take(cap as int),
            truncated: true,
        }),
    decreases chunks.len(),
{
    if chunks.len() == 0 {
        assert(concat_chunks(chunks) =~= Seq::<u8>::empty());
    } else {
        lemma_bounded_capture(cap, chunks.drop_last());
        let fed0 = concat_chunks(chunks.drop_last());
        let fed = concat_chunks(chunks);
        let c = chunks.last();
        let mid = fold_chunks(empty_capture(cap), chunks.drop_last());
        assert(fed == fed0 + c);
        if fed0.len() <= cap {
            assert(mid.bytes == fed0);
            if fed.len() > cap {
                assert((mid.bytes + c).take(cap as int) =~= fed.take(cap as int));
            }
        } else {
            assert(mid.bytes == fed0.take(cap as int));
            assert(fed.len() > cap);
            if (mid.bytes + c).len() <= cap {
                assert(c.len() == 0);
                assert(mid.bytes + c =~= fed.take(cap as int));
            } else {
                assert((mid.bytes + c).take(cap as int) =~= fed.take(cap as int));
            }
        }
    }
}

} // verus!
