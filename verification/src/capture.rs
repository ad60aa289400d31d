//! Bounded capture of a child's output: what is read past the cap is
//! dropped, so runaway output cannot exhaust the server's memory.

use vstd::prelude::*;
use vstd::utf8::{decode_utf8, valid_utf8};

verus! {

/// The most bytes captured per output stream of a command (10 MiB).
pub const MAX_CAPTURE_BYTES: usize = 10485760;

/// The buffer after one chunk is read: unchanged when already at the cap,
/// else extended by as much of the chunk as fits.
pub open spec fn captured(buf: Seq<u8>, chunk: Seq<u8>, cap: int) -> Seq<u8> {
    if buf.len() >= cap {
        buf
    } else if chunk.len() <= cap - buf.len() {
        buf + chunk
    } else {
        buf + chunk.take(cap - buf.len())
    }
}

/// Adds a chunk read from a pipe to `buf`, never growing it past `cap`.
/// Returns whether reading should go on (the cap has not been reached).
pub fn capture_chunk(buf: &mut Vec<u8>, chunk: &[u8], cap: usize) -> (more: bool)
    ensures
        final(buf)@ == captured(old(buf)@, chunk@, cap as int),
        more == (final(buf)@.len() < cap),
{
    if buf.len() >= cap {
        return false;
    }
    let room = cap - buf.len();
    let take = if chunk.len() < room { chunk.len() } else { room };
    let mut i: usize = 0;
    let ghost start = buf@;
    while i < take
        invariant
            take <= chunk@.len(),
            i <= take,
            buf@ == start + chunk@.take(i as int),
        decreases take - i,
    {
        assert(chunk@.take(i + 1) =~= chunk@.take(i as int).push(chunk@[i as int]));
        buf.push(chunk[i]);
        i = i + 1;
    }
    assert(chunk@.take(chunk@.len() as int) =~= chunk@);
    buf.len() < cap
}

/// Captured output never exceeds the cap, and is always a prefix of what
/// was read.
pub proof fn lemma_capture_bounded(buf: Seq<u8>, chunk: Seq<u8>, cap: int)
    requires
        buf.len() <= cap,
    ensures
        captured(buf, chunk, cap).len() <= cap,
        (buf + chunk).take(captured(buf, chunk, cap).len() as int) == captured(buf, chunk, cap),
{
    let r = captured(buf, chunk, cap);
    assert((buf + chunk).take(r.len() as int) =~= r);
}

/// The text `String::from_utf8_lossy` makes of captured bytes: the bytes
/// decoded as UTF-8, each invalid sequence replaced by U+FFFD.
pub uninterp spec fn lossy_text(bytes: Seq<u8>) -> Seq<char>;

/// Decodes captured output with `String::from_utf8_lossy`. Trusted: the
/// result is `lossy_text` of the bytes, which is their plain decoding when
/// they are valid UTF-8.
#[verifier::external_body]
pub(crate) fn output_text(bytes: &[u8]) -> (res: String)
    ensures
        res@ == lossy_text(bytes@),
        valid_utf8(bytes@) ==> res@ == decode_utf8(bytes@),
{
    String::from_utf8_lossy(bytes).into_owned()
}

} // verus!
