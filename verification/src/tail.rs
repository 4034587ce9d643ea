//! The tail-read protocol: given the whole content of a log file and the byte
//! offset last consumed, what text is new and what is the new offset baseline.
//!
//! The functions here are pure: opening, stat-ing and reading the file is the
//! caller's side of the split. `tail_outcome` is the full specification of a
//! read; `tail_chunk` computes it from the complete content, and `wants_read`
//! plus `decode_tail` serve a caller that seeks instead of re-reading the
//! whole file.

use vstd::prelude::*;
use vstd::slice::*;
use vstd::utf8::*;

verus! {

/// How a read can fail once the file itself was reachable.
#[derive(Clone, Copy, Debug, PartialEq, Eq, Structural)]
pub enum TailError {
    /// The file could not be opened, stat-ed or read.
    IOFailure,
    /// The newly appended bytes are not valid UTF-8.
    DecodeFailure,
}

/// The bytes that lie past `offset`: empty when the offset is at or beyond
/// the end (already fully read, or the file was truncated below the offset).
pub open spec fn tail_bytes(content: Seq<u8>, offset: int) -> Seq<u8> {
    if 0 <= offset < content.len() {
        content.subrange(offset, content.len() as int)
    } else {
        Seq::empty()
    }
}

/// Decoding a freshly read byte span: the text on valid UTF-8, a hard
/// `DecodeFailure` otherwise, never a lossy substitute.
pub open spec fn decode_outcome(bytes: Seq<u8>, file_len: int) -> Result<
    (Seq<char>, int),
    TailError,
> {
    if valid_utf8(bytes) {
        Ok((decode_utf8(bytes), file_len))
    } else {
        Err(TailError::DecodeFailure)
    }
}

/// The full specification of one tail read over content `content` at offset
/// `offset`: `(new text, current length)`, where an offset at or past the end
/// yields the explicit "nothing new" pair rather than an error.
pub open spec fn tail_outcome(content: Seq<u8>, offset: int) -> Result<
    (Seq<char>, int),
    TailError,
> {
    if offset >= content.len() {
        Ok((Seq::empty(), content.len() as int))
    } else {
        decode_outcome(tail_bytes(content, offset), content.len() as int)
    }
}

/// The mathematical value of an executable read result.
pub open spec fn tail_result_view(r: Result<(String, u64), TailError>) -> Result<
    (Seq<char>, int),
    TailError,
> {
    match r {
        Ok((s, n)) => Ok((s@, n as int)),
        Err(e) => Err(e),
    }
}

/// Relies on `String::from_utf8`: it returns the decoded string exactly when
/// the bytes are valid UTF-8, and an error otherwise.
#[verifier::external_body]
fn utf8_string(bytes: Vec<u8>) -> (r: Result<String, ()>)
    ensures
        r is Ok <==> valid_utf8(bytes@),
        r is Ok ==> r.unwrap()@ == decode_utf8(bytes@),
{
    match String::from_utf8(bytes) {
        Ok(s) => Ok(s),
        Err(_) => Err(()),
    }
}

/// Whether a caller that seeks must read at all: only when the offset is
/// strictly inside the file. Otherwise the read resolves to "nothing new".
pub fn wants_read(offset: u64, file_len: u64) -> (b: bool)
    ensures
        b == (offset < file_len),
{
    offset < file_len
}

/// Turns the bytes read after a seek to the consumed offset, together with
/// the file length from the same stat, into the read's result.
pub fn decode_tail(bytes: Vec<u8>, file_len: u64) -> (r: Result<(String, u64), TailError>)
    ensures
        tail_result_view(r) == decode_outcome(bytes@, file_len as int),
{
    match utf8_string(bytes) {
        Ok(s) => Ok((s, file_len)),
        Err(_) => Err(TailError::DecodeFailure),
    }
}

/// One tail read, computed from the complete content: the reference form of
/// the protocol, exact against `tail_outcome`.
pub fn tail_chunk(content: &Vec<u8>, offset: u64) -> (r: Result<(String, u64), TailError>)
    ensures
        tail_result_view(r) == tail_outcome(content@, offset as int),
{
    let file_len: u64 = content.len() as u64;
    if offset >= file_len {
        Ok((String::new(), file_len))
    } else {
        let start = offset as usize;
        let tail = slice_subrange(content.as_slice(), start, content.len());
        let bytes = slice_to_vec(tail);
        decode_tail(bytes, file_len)
    }
}

/// An offset exactly at the end of the file — including offset 0 on an empty
/// file — reads as "nothing new": empty text, unchanged length.
pub proof fn lemma_tail_at_end(content: Seq<u8>, offset: int)
    requires
        offset == content.len(),
    ensures
        tail_outcome(content, offset) == Ok::<(Seq<char>, int), TailError>(
            (Seq::empty(), content.len() as int),
        ),
{
}

/// An offset past the end of the file — the truncation/rotation race — also
/// reads as "nothing new", not as an error; the returned length lets the
/// caller resynchronize.
pub proof fn lemma_tail_past_end(content: Seq<u8>, offset: int)
    requires
        offset > content.len(),
    ensures
        tail_outcome(content, offset) == Ok::<(Seq<char>, int), TailError>(
            (Seq::empty(), content.len() as int),
        ),
{
}

/// Idempotence: two reads at the same offset of unchanged content have the
/// same outcome, text and length alike.
pub proof fn lemma_tail_idempotent(
    content: Seq<u8>,
    offset: int,
    r1: Result<(String, u64), TailError>,
    r2: Result<(String, u64), TailError>,
)
    requires
        tail_result_view(r1) == tail_outcome(content, offset),
        tail_result_view(r2) == tail_outcome(content, offset),
    ensures
        tail_result_view(r1) == tail_result_view(r2),
{
}

/// Monotonic consumption, byte level: appending `suffix` and reading from the
/// old length yields exactly the decoding of `suffix`, with the new length.
pub proof fn lemma_tail_after_append(content: Seq<u8>, suffix: Seq<u8>)
    ensures
        tail_outcome(content + suffix, content.len() as int) == decode_outcome(
            suffix,
            content.len() + suffix.len() as int,
        ),
{
    let whole = content + suffix;
    if suffix.len() == 0 {
        assert(suffix =~= Seq::<u8>::empty());
        assert(valid_utf8(suffix));
        assert(decode_utf8(suffix) =~= Seq::<char>::empty());
    } else {
        assert(tail_bytes(whole, content.len() as int) =~= suffix);
    }
}

/// Monotonic consumption, text level: appending the encoding of text `t` and
/// reading from the old length yields exactly `t`, with the length advanced
/// by the encoding's size.
pub proof fn lemma_tail_yields_appended_text(content: Seq<u8>, t: Seq<char>)
    ensures
        tail_outcome(content + encode_utf8(t), content.len() as int) == Ok::<
            (Seq<char>, int),
            TailError,
        >((t, content.len() + encode_utf8(t).len() as int)),
{
    broadcast use encode_utf8_valid_utf8, encode_utf8_decode_utf8;

    lemma_tail_after_append(content, encode_utf8(t));
}

} // verus!
