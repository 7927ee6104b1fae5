//! The display-safe tail of a captured byte buffer.

use crate::text::{decimal_digits, push_decimal};
use vstd::prelude::*;
use vstd::slice::slice_subrange;
use vstd::string::*;
use vstd::utf8::{decode_utf8, valid_utf8};

verus! {

/// The text that `String::from_utf8_lossy` makes of `bytes`: their decoding as
/// UTF-8, with U+FFFD in place of each malformed sequence.
pub uninterp spec fn lossy_text(bytes: Seq<u8>) -> Seq<char>;

/// The last `max` bytes of `data`, or all of it where it holds no more.
pub open spec fn tail_window(data: Seq<u8>, max: nat) -> Seq<u8> {
    if data.len() <= max {
        data
    } else {
        data.subrange(data.len() - max, data.len() as int)
    }
}

/// The line that stands above a shortened tail and says how many bytes follow.
pub open spec fn truncation_marker(max: nat) -> Seq<char> {
    "… (truncated, showing last "@ + decimal_digits(max) + " bytes)\n"@
}

/// The tail of `data` as text: all of it decoded where it has at most `max`
/// bytes, else the marker and the decoding of its last `max` bytes.
pub open spec fn tail_text(data: Seq<u8>, max: nat) -> Seq<char> {
    if data.len() <= max {
        lossy_text(data)
    } else {
        truncation_marker(max) + lossy_text(tail_window(data, max))
    }
}

/// Calls `String::from_utf8_lossy`. Trusted: the result is the text named
/// `lossy_text` of the bytes, and for well-formed UTF-8 it is their decoding,
/// as std documents.
#[verifier::external_body]
fn decode_lossy(bytes: &[u8]) -> (text: String)
    ensures
        text@ == lossy_text(bytes@),
        valid_utf8(bytes@) ==> text@ == decode_utf8(bytes@),
{
    String::from_utf8_lossy(bytes).into_owned()
}

/// The part of `buf` that a tail of at most `max` bytes shows.
pub fn last_bytes(buf: &[u8], max: usize) -> (window: &[u8])
    ensures
        window@ == tail_window(buf@, max as nat),
{
    let len = buf.len();
    if len <= max {
        buf
    } else {
        slice_subrange(buf, len - max, len)
    }
}

/// Puts the truncation marker for `max` bytes above the decoded text `shown`.
pub fn mark_truncated(max: usize, shown: &str) -> (text: String)
    ensures
        text@ == truncation_marker(max as nat) + shown@,
{
    let mut text = String::from_str("… (truncated, showing last ");
    push_decimal(&mut text, max as u64);
    text.append(" bytes)\n");
    text.append(shown);
    text
}

/// The display-safe tail of `buf`: the whole buffer decoded lossily where it
/// has at most `max` bytes, else its last `max` bytes decoded lossily below a
/// marker that names `max`.
pub fn tail_bytes(buf: &[u8], max: usize) -> (text: String)
    ensures
        text@ == tail_text(buf@, max as nat),
        buf@.len() <= max ==> text@ == lossy_text(buf@),
        buf@.len() <= max && valid_utf8(buf@) ==> text@ == decode_utf8(buf@),
        buf@.len() > max && valid_utf8(tail_window(buf@, max as nat)) ==> text@
            == truncation_marker(max as nat) + decode_utf8(tail_window(buf@, max as nat)),
{
    let window = last_bytes(buf, max);
    let shown = decode_lossy(window);
    if buf.len() <= max {
        shown
    } else {
        mark_truncated(max, shown.as_str())
    }
}

/// A tail never decodes more than `max` bytes of a longer buffer, and those
/// bytes are the buffer's end; a buffer of at most `max` bytes, one of exactly
/// `max` bytes too, is decoded whole and gets no marker.
pub proof fn lemma_tail_window(data: Seq<u8>, max: nat)
    ensures
        tail_window(data, max).len() <= data.len(),
        data.len() > max ==> tail_window(data, max).len() == max,
        data.len() > max ==> tail_text(data, max) == truncation_marker(max) + lossy_text(
            tail_window(data, max),
        ),
        data.len() <= max ==> tail_window(data, max) == data,
        data.len() <= max ==> tail_text(data, max) == lossy_text(data),
        forall|i: int|
            0 <= i < tail_window(data, max).len() ==> tail_window(data, max)[i] == data[data.len()
                - tail_window(data, max).len() + i],
{
}

} // verus!
