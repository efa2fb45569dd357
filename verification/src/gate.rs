//! The hashing gate: takes a payload in pieces, refuses it once it would
//! pass the ceiling, and digests exactly the bytes it took.

use vstd::prelude::*;
use crate::error::{Failure, FailureView};

verus! {

/// The ceiling on a payload's length: 1 GiB.
pub const MAX_UPLOAD_BYTES: usize = 1073741824;

/// The BLAKE3 digest of `input`, written as lowercase hexadecimal.
pub uninterp spec fn blake3_hex(input: Seq<u8>) -> Seq<char>;

/// `blake3::hash`, printed through the `Display` of `blake3::Hash`: the
/// 32-byte BLAKE3 digest of `bytes` in lowercase hexadecimal. The result
/// is only given its name.
#[verifier::external_body]
fn digest_hex(bytes: &[u8]) -> (r: String)
    ensures
        r@ == blake3_hex(bytes@),
{
    blake3::hash(bytes).to_string()
}

/// All the bytes of a stream that arrives in pieces, in order.
pub open spec fn stream_bytes(chunks: Seq<Vec<u8>>) -> Seq<u8>
    decreases chunks.len(),
{
    if chunks.len() == 0 {
        Seq::<u8>::empty()
    } else {
        stream_bytes(chunks.drop_last()) + chunks.last()@
    }
}

/// A stream never gets shorter by more pieces.
pub proof fn lemma_stream_bytes_grows(chunks: Seq<Vec<u8>>, n: int)
    requires
        0 <= n <= chunks.len(),
    ensures
        stream_bytes(chunks.take(n)).len() <= stream_bytes(chunks).len(),
    decreases chunks.len(),
{
    if n == chunks.len() {
        assert(chunks.take(n) =~= chunks);
    } else {
        lemma_stream_bytes_grows(chunks.drop_last(), n);
        assert(chunks.drop_last().take(n) =~= chunks.take(n));
    }
}

/// What the intake hands on for an accepted payload.
#[derive(Clone, Debug)]
pub struct Consumed {
    /// The digest of `bytes`, in lowercase hexadecimal.
    pub digest: String,
    /// The payload.
    pub bytes: Vec<u8>,
    /// The payload's length.
    pub length: usize,
}

/// The mathematical value of a `Consumed`.
pub struct ConsumedView {
    pub digest: Seq<char>,
    pub bytes: Seq<u8>,
    pub length: nat,
}

impl View for Consumed {
    type V = ConsumedView;

    open spec fn view(&self) -> ConsumedView {
        ConsumedView { digest: self.digest@, bytes: self.bytes@, length: self.length as nat }
    }
}

/// What the intake hands on for `bytes`: the bytes themselves, their length
/// and their digest.
pub open spec fn consumed_of(bytes: Seq<u8>) -> ConsumedView {
    ConsumedView { digest: blake3_hex(bytes), bytes, length: bytes.len() }
}

/// The intake's answer for a whole payload under a ceiling.
pub open spec fn gate_outcome(bytes: Seq<u8>, limit: int) -> Result<ConsumedView, FailureView> {
    if bytes.len() <= limit {
        Ok(consumed_of(bytes))
    } else {
        Err(FailureView::PayloadTooLarge)
    }
}

/// The value of the intake's answer.
pub open spec fn consumed_view(r: Result<Consumed, Failure>) -> Result<ConsumedView, FailureView> {
    match r {
        Ok(c) => Ok(c@),
        Err(e) => Err(e@),
    }
}

/// A payload in the making: the bytes taken so far, never more than the
/// ceiling, and whether a piece had to be refused.
pub struct HashingGate {
    limit: usize,
    taken: Vec<u8>,
    refused: bool,
}

impl HashingGate {
    /// The ceiling this gate was made with.
    pub closed spec fn limit(&self) -> usize {
        self.limit
    }

    /// The bytes taken so far.
    pub closed spec fn taken(&self) -> Seq<u8> {
        self.taken@
    }

    /// Whether a piece was refused.
    pub closed spec fn refused(&self) -> bool {
        self.refused
    }

    /// The intake never holds more than its ceiling.
    pub closed spec fn well_formed(&self) -> bool {
        self.taken@.len() <= self.limit
    }

    /// Whether the intake can take `chunk`: nothing was refused before, and
    /// the total stays within the ceiling.
    pub open spec fn admits(&self, chunk: Seq<u8>) -> bool {
        !self.refused() && self.taken().len() + chunk.len() <= self.limit()
    }

    /// A gate that has taken nothing yet.
    pub fn new(limit_bytes: usize) -> (gate: HashingGate)
        ensures
            gate.well_formed(),
            gate.limit() == limit_bytes,
            gate.taken() == Seq::<u8>::empty(),
            !gate.refused(),
    {
        HashingGate { limit: limit_bytes, taken: Vec::new(), refused: false }
    }

    /// Takes the next piece of the payload.
    ///
    /// The piece is appended where the total stays within the ceiling and
    /// nothing was refused before. Otherwise the intake is marked as refused,
    /// keeps what it had, and the answer is `PayloadTooLarge`.
    pub fn feed(&mut self, chunk: &[u8]) -> (r: Result<(), Failure>)
        requires
            old(self).well_formed(),
        ensures
            final(self).well_formed(),
            final(self).limit() == old(self).limit(),
            old(self).admits(chunk@) ==> r is Ok && !final(self).refused()
                && final(self).taken() == old(self).taken() + chunk@,
            !old(self).admits(chunk@) ==> (r matches Err(e) && e@ == FailureView::PayloadTooLarge)
                && final(self).refused() && final(self).taken() == old(self).taken(),
    {
        if self.refused || chunk.len() > self.limit - self.taken.len() {
            self.refused = true;
            return Err(Failure::PayloadTooLarge);
        }
        let ghost before = self.taken@;
        self.taken.extend_from_slice(chunk);
        assert(self.taken@ =~= before + chunk@);
        Ok(())
    }

    /// Ends the payload: its bytes, length and digest, or `PayloadTooLarge`
    /// where a piece was refused.
    pub fn finish(self) -> (r: Result<Consumed, Failure>)
        requires
            self.well_formed(),
        ensures
            !self.refused() ==> consumed_view(r) == Ok::<ConsumedView, FailureView>(
                consumed_of(self.taken()),
            ),
            self.refused() ==> consumed_view(r) == Err::<ConsumedView, FailureView>(
                FailureView::PayloadTooLarge,
            ),
    {
        if self.refused {
            return Err(Failure::PayloadTooLarge);
        }
        let digest = digest_hex(self.taken.as_slice());
        let length = self.taken.len();
        Ok(Consumed { digest, bytes: self.taken, length })
    }
}

/// Takes a whole stream, piece by piece, under a ceiling.
///
/// A stream within the ceiling is handed on entire, with its length and
/// with the digest of exactly those bytes; a longer one is refused with
/// `PayloadTooLarge`.
pub fn consume(stream: &Vec<Vec<u8>>, limit_bytes: usize) -> (r: Result<Consumed, Failure>)
    ensures
        consumed_view(r) == gate_outcome(stream_bytes(stream@), limit_bytes as int),
{
    let mut gate = HashingGate::new(limit_bytes);
    let mut i: usize = 0;
    while i < stream.len()
        invariant
            0 <= i <= stream.len(),
            gate.well_formed(),
            gate.limit() == limit_bytes,
            !gate.refused(),
            gate.taken() == stream_bytes(stream@.take(i as int)),
        decreases stream.len() - i,
    {
        assert(stream@.take(i + 1).drop_last() =~= stream@.take(i as int));
        match gate.feed(stream[i].as_slice()) {
            Ok(()) => {},
            Err(e) => {
                proof {
                    lemma_stream_bytes_grows(stream@, i + 1);
                }
                return Err(e);
            },
        }
        i = i + 1;
    }
    assert(stream@.take(i as int) =~= stream@);
    gate.finish()
}

} // verus!
