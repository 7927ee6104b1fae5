//! Draining one byte stream to its end, with an optional live copy to a sink.
//!
//! The relay reaches its streams only through [`Source::fetch`] and
//! [`Sink::forward`], which keep the record of what went through them. Its
//! contract says over those records what it read and what it forwarded.

pub use crate::stream::{Sink, Source};
use vstd::array::array_as_slice;
use vstd::prelude::*;
use vstd::slice::slice_subrange;
use vstd::string::*;

verus! {

/// std's `io::Error`, carried through as it is.
#[verifier::external_type_specification]
#[verifier::external_body]
pub struct ExIoError(std::io::Error);

/// The number of bytes that one read asks for.
pub const CHUNK_SIZE: usize = 4096;

/// Why a relay was abandoned.
#[derive(Debug)]
pub enum RelayFault {
    /// The source failed to read.
    Read(std::io::Error),
    /// The sink failed to take a chunk.
    Write(std::io::Error),
    /// The source claimed to have read more bytes than the buffer holds.
    Overrun,
}

/// The bytes that a relay hands to its sink when it captured `bytes`.
pub open spec fn forwarded(bytes: Seq<u8>, tee: bool) -> Seq<u8> {
    if tee {
        bytes
    } else {
        Seq::empty()
    }
}

/// What was put behind `before` to make `after` of it.
pub open spec fn added(before: Seq<u8>, after: Seq<u8>) -> Seq<u8> {
    after.skip(before.len() as int)
}

/// Calls `to_string` on a `std::io::Error`. Trusted; nothing is claimed of the
/// text.
#[verifier::external_body]
fn io_error_text(error: &std::io::Error) -> (text: String) {
    error.to_string()
}

/// What the outcome of one read into a buffer of `CHUNK_SIZE` bytes means
/// for the relay: the count of new bytes, zero for the end of the stream; an
/// overrun where the count is beyond the buffer; the read's own error as a
/// read fault.
pub fn judge_read(outcome: Result<usize, std::io::Error>) -> (res: Result<usize, RelayFault>)
    ensures
        res == match outcome {
            Ok(n) => if n <= CHUNK_SIZE {
                Ok::<usize, RelayFault>(n)
            } else {
                Err::<usize, RelayFault>(RelayFault::Overrun)
            },
            Err(e) => Err::<usize, RelayFault>(RelayFault::Read(e)),
        },
{
    match outcome {
        Ok(n) => if n <= CHUNK_SIZE {
            Ok(n)
        } else {
            Err(RelayFault::Overrun)
        },
        Err(e) => Err(RelayFault::Read(e)),
    }
}

impl RelayFault {
    /// The text of an overrun.
    pub open spec fn overrun_text() -> Seq<char> {
        "stream reported more bytes than were asked for"@
    }

    /// A line that describes the fault: the error's own text for a failed read
    /// or write.
    pub fn describe(&self) -> (text: String)
        ensures
            self is Overrun ==> text@ == Self::overrun_text(),
    {
        match self {
            RelayFault::Read(e) => io_error_text(e),
            RelayFault::Write(e) => io_error_text(e),
            RelayFault::Overrun => String::from_str(
                "stream reported more bytes than were asked for",
            ),
        }
    }
}

/// Reads `source` to its end in chunks of at most `CHUNK_SIZE` bytes and
/// returns all that was read. With `tee`, each chunk goes to `sink` as soon as
/// it was read, before the next read, and the sink is asked to flush after
/// each; without, the sink is not touched, nor where the stream is empty. The
/// relay fails exactly where a read failed, or with `tee` a write: that fault
/// is the last thing that happened and it is the one handed back, and what was
/// gathered until then is dropped. At a failed read the sink has taken all
/// that was read; at a failed write, all but the chunk that it refused.
pub fn read_stream<R: std::io::Read, W: std::io::Write>(
    source: &mut Source<R>,
    sink: &mut Sink<W>,
    tee: bool,
) -> (res: Result<Vec<u8>, RelayFault>)
    ensures
        !tee ==> *final(sink) == *old(sink),
        match res {
            Ok(bytes) => {
                &&& final(source).at_end()
                &&& final(source).fault() is None
                &&& final(source).consumed() == old(source).consumed() + bytes@
                &&& final(sink).received() == old(sink).received() + forwarded(bytes@, tee)
                &&& bytes@.len() == 0 ==> *final(sink) == *old(sink)
                &&& tee && bytes@.len() > 0 ==> final(sink).fault() is None
                &&& tee && bytes@.len() > 0 ==> final(sink).flushed() == final(sink).received()
            },
            Err(fault) => {
                &&& old(source).consumed().is_prefix_of(final(source).consumed())
                &&& old(sink).received().is_prefix_of(final(sink).received())
                &&& final(source).fault() == Some(fault) || (tee && final(source).fault() is None
                    && final(sink).fault() == Some(fault))
                &&& fault is Write ==> tee
                &&& final(source).fault() == Some(fault) ==> final(sink).received() == old(
                    sink,
                ).received() + forwarded(
                    added(old(source).consumed(), final(source).consumed()),
                    tee,
                )
                &&& final(source).fault() is None ==> {
                    let read = added(old(source).consumed(), final(source).consumed());
                    let sent = added(old(sink).received(), final(sink).received());
                    sent.is_prefix_of(read) && 0 < read.len() - sent.len() <= CHUNK_SIZE
                }
            },
        },
{
    let ghost read_before = source.consumed();
    let ghost sent_before = sink.received();
    let mut buf: Vec<u8> = Vec::new();
    let mut chunk = [0u8; CHUNK_SIZE];
    loop
        invariant
            read_before == old(source).consumed(),
            sent_before == old(sink).received(),
            source.consumed() == read_before + buf@,
            sink.received() == sent_before + forwarded(buf@, tee),
            !tee ==> *sink == *old(sink),
            buf@.len() == 0 ==> *sink == *old(sink),
            tee && buf@.len() > 0 ==> sink.fault() is None && sink.flushed() == sink.received(),
        ensures
            source.at_end(),
            source.fault() is None,
            source.consumed() == read_before + buf@,
            sink.received() == sent_before + forwarded(buf@, tee),
            !tee ==> *sink == *old(sink),
            buf@.len() == 0 ==> *sink == *old(sink),
            tee && buf@.len() > 0 ==> sink.fault() is None && sink.flushed() == sink.received(),
        decreases usize::MAX - buf.len(),
    {
        let n = match source.fetch(&mut chunk) {
            Ok(n) => n,
            Err(fault) => {
                assert(added(read_before, source.consumed()) =~= buf@);
                return Err(fault);
            },
        };
        if n == 0 {
            break ;
        }
        let part = slice_subrange(array_as_slice(&chunk), 0, n);
        if tee {
            match sink.forward(part) {
                Ok(_) => {},
                Err(fault) => {
                    assert(added(read_before, source.consumed()) =~= buf@ + part@);
                    assert(added(sent_before, sink.received()) =~= buf@);
                    return Err(fault);
                },
            }
        }
        buf.extend_from_slice(part);
    }
    Ok(buf)
}

} // verus!
