//! A reader and a writer, each with the record of what went through it.
//!
//! The records are ghost state that only the calls of this module change: a
//! [`Source`] notes every byte that a read gave and how the latest read ended,
//! a [`Sink`] every chunk that a write took, how far it was asked to flush and
//! how the latest write ended.

use crate::relay::{judge_read, RelayFault, CHUNK_SIZE};
use vstd::prelude::*;

verus! {

/// A byte stream to read, with the record of what was read from it and of
/// how the latest read ended.
pub struct Source<R> {
    inner: R,
    consumed: Ghost<Seq<u8>>,
    at_end: Ghost<bool>,
    fault: Ghost<Option<RelayFault>>,
}

/// A byte stream to write, with the record of what it took, of how much of
/// that it was asked to flush, and of how the latest write ended.
pub struct Sink<W> {
    inner: W,
    received: Ghost<Seq<u8>>,
    flushed: Ghost<Seq<u8>>,
    fault: Ghost<Option<RelayFault>>,
}

/// Calls `std::io::Read::read` with the whole buffer. Trusted; nothing is
/// claimed of the count that comes back nor of the buffer.
#[verifier::external_body]
fn read_into<R: std::io::Read>(reader: &mut R, buf: &mut [u8; CHUNK_SIZE]) -> (res: Result<
    usize,
    std::io::Error,
>) {
    reader.read(buf)
}

/// Calls `std::io::Write::write_all`. Trusted; nothing is claimed of the
/// result.
#[verifier::external_body]
fn write_whole<W: std::io::Write>(writer: &mut W, data: &[u8]) -> (res: Result<
    (),
    std::io::Error,
>) {
    writer.write_all(data)
}

/// Calls `std::io::Write::flush`. Trusted; nothing is claimed of the result.
#[verifier::external_body]
fn flush_writer<W: std::io::Write>(writer: &mut W) -> (res: Result<(), std::io::Error>) {
    writer.flush()
}

impl<R> Source<R> {
    /// The bytes read from this source so far, in order.
    pub closed spec fn consumed(&self) -> Seq<u8> {
        self.consumed@
    }

    /// Whether the latest read reported the end of the stream.
    pub closed spec fn at_end(&self) -> bool {
        self.at_end@
    }

    /// The fault of the latest read, where it failed.
    pub closed spec fn fault(&self) -> Option<RelayFault> {
        self.fault@
    }

    /// The reader that this source reads from.
    pub closed spec fn reader(&self) -> R {
        self.inner
    }

    /// Wraps a reader from which nothing was read yet.
    pub fn new(inner: R) -> (source: Self)
        ensures
            source.reader() == inner,
            source.consumed() == Seq::<u8>::empty(),
            !source.at_end(),
            source.fault() is None,
    {
        Source { inner, consumed: Ghost(Seq::empty()), at_end: Ghost(false), fault: Ghost(None) }
    }

    /// Gives the reader back.
    pub fn into_inner(self) -> (reader: R)
        ensures
            reader == self.reader(),
    {
        self.inner
    }
}

impl<R: std::io::Read> Source<R> {
    /// Reads the next chunk into `buf` and returns how many bytes of it are
    /// new. A count of zero is the end of the stream. A count beyond the
    /// buffer is refused as an overrun, and no byte is recorded. How the read
    /// ended is recorded either way.
    pub fn fetch(&mut self, buf: &mut [u8; CHUNK_SIZE]) -> (res: Result<usize, RelayFault>)
        ensures
            match res {
                Ok(n) => {
                    &&& n <= CHUNK_SIZE
                    &&& final(self).consumed() == old(self).consumed() + final(buf)@.subrange(
                        0,
                        n as int,
                    )
                    &&& final(self).at_end() == (n == 0)
                    &&& final(self).fault() is None
                },
                Err(fault) => {
                    &&& final(self).consumed() == old(self).consumed()
                    &&& final(self).at_end() == old(self).at_end()
                    &&& final(self).fault() == Some(fault)
                    &&& !(fault is Write)
                },
            },
    {
        let res = judge_read(read_into(&mut self.inner, buf));
        proof {
            if res is Ok {
                self.consumed@ = self.consumed@ + buf@.subrange(0, res->Ok_0 as int);
                self.at_end@ = res->Ok_0 == 0;
                self.fault@ = None;
            } else {
                self.fault@ = Some(res->Err_0);
            }
        }
        res
    }
}

impl<W> Sink<W> {
    /// The bytes of the chunks that this sink took so far, in order.
    pub closed spec fn received(&self) -> Seq<u8> {
        self.received@
    }

    /// What this sink had taken when its writer was last asked to flush.
    pub closed spec fn flushed(&self) -> Seq<u8> {
        self.flushed@
    }

    /// The fault of the latest write, where it failed.
    pub closed spec fn fault(&self) -> Option<RelayFault> {
        self.fault@
    }

    /// The writer that this sink writes to.
    pub closed spec fn writer(&self) -> W {
        self.inner
    }

    /// Wraps a writer to which nothing was written yet.
    pub fn new(inner: W) -> (sink: Self)
        ensures
            sink.writer() == inner,
            sink.received() == Seq::<u8>::empty(),
            sink.flushed() == Seq::<u8>::empty(),
            sink.fault() is None,
    {
        Sink {
            inner,
            received: Ghost(Seq::empty()),
            flushed: Ghost(Seq::empty()),
            fault: Ghost(None),
        }
    }

    /// Gives the writer back.
    pub fn into_inner(self) -> (writer: W)
        ensures
            writer == self.writer(),
    {
        self.inner
    }
}

impl<W: std::io::Write> Sink<W> {
    /// Writes all of `data`, then asks the writer to flush so that it shows at
    /// once. A failed flush is not a fault. A failed write is: no byte is
    /// recorded and no flush is asked for. How the write ended is recorded
    /// either way.
    pub fn forward(&mut self, data: &[u8]) -> (res: Result<(), RelayFault>)
        ensures
            match res {
                Ok(_) => {
                    &&& final(self).received() == old(self).received() + data@
                    &&& final(self).flushed() == final(self).received()
                    &&& final(self).fault() is None
                },
                Err(fault) => {
                    &&& final(self).received() == old(self).received()
                    &&& final(self).flushed() == old(self).flushed()
                    &&& final(self).fault() == Some(fault)
                    &&& fault is Write
                },
            },
    {
        match write_whole(&mut self.inner, data) {
            Ok(_) => {
                proof {
                    self.received@ = self.received@ + data@;
                    self.fault@ = None;
                }
                match flush_writer(&mut self.inner) {
                    Ok(_) => {},
                    Err(_) => {},
                }
                proof {
                    self.flushed@ = self.received@;
                }
                Ok(())
            },
            Err(e) => {
                proof {
                    self.fault@ = Some(RelayFault::Write(e));
                }
                Err(RelayFault::Write(e))
            },
        }
    }
}

} // verus!
