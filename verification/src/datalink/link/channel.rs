//! Generic frame link channel.
//!
//! [`LinkWriter`] and [`LinkReader`] compose a frame format
//! ([`FrameWriter`]/[`FrameReader`]) with a coding pipeline (a coding
//! writer `W` or reader `R`) into a single owned type — no split, no shared
//! state, no extra buffers.
//!
//! The coding pipeline is asynchronous and is driven by the caller: the
//! methods here take every decision of a send, a flush or a receive, and
//! hand out the finished frame with the coding writer that takes it, or
//! the frame buffer with the coding reader that fills it.
use vstd::prelude::*;

use crate::datalink::framing::{FrameReader, FrameWriter, PushError};

verus! {

/// Errors that can occur during link channel operations.
#[derive(Debug, Clone)]
pub enum LinkError<E> {
    /// The underlying coding layer returned an error.
    Link(E),
    /// The data exceeds the maximum frame data length.
    FrameTooLarge,
    /// A received frame failed to parse.
    InvalidFrame,
    /// Failed to construct a transfer frame.
    BuildError,
}

/// Owns a [`FrameWriter`] and a coding writer, accumulating
/// packets into frames and flushing them to the coding pipeline.
pub struct LinkWriter<F, W> {
    frame_writer: F,
    coding_writer: W,
}

impl<F: FrameWriter, W> LinkWriter<F, W> {
    /// The frame writer.
    pub closed spec fn spec_frame_writer(&self) -> F {
        self.frame_writer
    }

    /// The coding writer.
    pub closed spec fn spec_coding_writer(&self) -> W {
        self.coding_writer
    }

    /// The frame writer is ready.
    pub open spec fn wf(&self) -> bool {
        self.spec_frame_writer().ready()
    }

    /// Creates a new link writer.
    pub fn new(frame_writer: F, coding_writer: W) -> (w: Self)
        requires
            frame_writer.ready(),
        ensures
            w.wf(),
            w.spec_frame_writer() == frame_writer,
            w.spec_coding_writer() == coding_writer,
    {
        LinkWriter { frame_writer, coding_writer }
    }

    /// The first step of a send: pushes `data` into the current frame.
    /// `Ok(false)` when it went in; `Ok(true)` when the frame is full, so
    /// that it has to be flushed and `data` pushed again; `FrameTooLarge`
    /// when `data` can never fit in a frame.
    pub fn start_send<E>(&mut self, data: &[u8]) -> (r: Result<bool, LinkError<E>>)
        requires
            old(self).wf(),
        ensures
            final(self).wf(),
            final(self).spec_coding_writer() == old(self).spec_coding_writer(),
            match old(self).spec_frame_writer().spec_push_result(data@) {
                Ok(()) => r == Ok::<bool, LinkError<E>>(false),
                Err(PushError::Full) => r == Ok::<bool, LinkError<E>>(true),
                Err(PushError::TooLarge) => r == Err::<bool, LinkError<E>>(LinkError::FrameTooLarge),
            },
    {
        match self.frame_writer.push(data) {
            Ok(()) => Ok(false),
            Err(PushError::TooLarge) => Err(LinkError::FrameTooLarge),
            Err(PushError::Full) => Ok(true),
        }
    }

    /// The last step of a send that had to flush first: pushes `data`
    /// again; a refusal is `FrameTooLarge`.
    pub fn finish_send<E>(&mut self, data: &[u8]) -> (r: Result<(), LinkError<E>>)
        requires
            old(self).wf(),
        ensures
            final(self).wf(),
            final(self).spec_coding_writer() == old(self).spec_coding_writer(),
            old(self).spec_frame_writer().spec_push_result(data@) is Ok ==> r is Ok,
            old(self).spec_frame_writer().spec_push_result(data@) is Err ==> r == Err::<(), LinkError<E>>(
                LinkError::FrameTooLarge,
            ),
    {
        match self.frame_writer.push(data) {
            Ok(()) => Ok(()),
            Err(_) => Err(LinkError::FrameTooLarge),
        }
    }

    /// The first step of a flush: finishes the current frame. `None` when
    /// no packet is pending; `BuildError` when the frame cannot be built;
    /// else the frame, with the coding writer to write it to.
    pub fn start_flush<E>(&mut self) -> (r: Result<Option<(&[u8], &mut W)>, LinkError<E>>)
        requires
            old(self).wf(),
        ensures
            old(self).spec_frame_writer().spec_is_empty() ==> r matches Ok(None),
            !old(self).spec_frame_writer().spec_is_empty() && !old(self).spec_frame_writer().spec_finish_ok()
                ==> r matches Err(LinkError::BuildError),
            !old(self).spec_frame_writer().spec_is_empty() && old(self).spec_frame_writer().spec_finish_ok()
                ==> r matches Ok(Some(_)),
            r matches Ok(Some((f, w))) ==> f@ == old(self).spec_frame_writer().spec_finished_frame() && *w
                == old(self).spec_coding_writer(),
    {
        if self.frame_writer.is_empty() {
            return Ok(None);
        }
        match self.frame_writer.finish() {
            Ok(frame) => Ok(Some((frame, &mut self.coding_writer))),
            Err(_) => Err(LinkError::BuildError),
        }
    }
}

/// Owns a [`FrameReader`] and a coding reader, reading
/// frames from the coding pipeline and extracting packets.
pub struct LinkReader<F, R> {
    frame_reader: F,
    coding_reader: R,
}

/// Copies the first `min(pkt.len(), buffer.len())` bytes of `pkt` into
/// `buffer` and returns that count.
pub(crate) fn copy_packet(pkt: &[u8], buffer: &mut [u8]) -> (n: usize)
    ensures
        n == if pkt@.len() < old(buffer)@.len() {
            pkt@.len()
        } else {
            old(buffer)@.len()
        },
        final(buffer)@ == crate::utils::splice(old(buffer)@, 0, pkt@.subrange(0, n as int)),
{
    let n = if pkt.len() < buffer.len() {
        pkt.len()
    } else {
        buffer.len()
    };
    let part = vstd::slice::slice_subrange(pkt, 0, n);
    crate::utils::copy_in(buffer, 0, part);
    n
}

impl<F: FrameReader, R> LinkReader<F, R> {
    /// The frame reader.
    pub closed spec fn spec_frame_reader(&self) -> F {
        self.frame_reader
    }

    /// The coding reader.
    pub closed spec fn spec_coding_reader(&self) -> R {
        self.coding_reader
    }

    /// The frame reader is ready.
    pub open spec fn wf(&self) -> bool {
        self.spec_frame_reader().ready()
    }

    /// Creates a new link reader.
    pub fn new(frame_reader: F, coding_reader: R) -> (r: Self)
        requires
            frame_reader.ready(),
        ensures
            r.wf(),
            r.spec_frame_reader() == frame_reader,
            r.spec_coding_reader() == coding_reader,
    {
        LinkReader { frame_reader, coding_reader }
    }

    /// The first step of a receive: copies the next packet of the current
    /// frame into `buffer`, cut to its length, and returns the number of
    /// bytes copied; `None` when the frame has no packet left, and then a
    /// new frame has to be read.
    pub fn next_packet(&mut self, buffer: &mut [u8]) -> (r: Option<usize>)
        requires
            old(self).wf(),
        ensures
            final(self).wf(),
            final(self).spec_coding_reader() == old(self).spec_coding_reader(),
            match old(self).spec_frame_reader().spec_next() {
                None => r is None && final(buffer)@ == old(buffer)@,
                Some(p) => {
                    let n = if p.len() < old(buffer)@.len() {
                        p.len()
                    } else {
                        old(buffer)@.len()
                    };
                    &&& r == Some(n as usize)
                    &&& final(buffer)@ == crate::utils::splice(old(buffer)@, 0, p.subrange(0, n as int))
                }
            },
    {
        match self.frame_reader.next() {
            Some(pkt) => Some(copy_packet(pkt, buffer)),
            None => None,
        }
    }

    /// Whether a frame of `len` bytes in the frame buffer can be accepted
    /// (what `accept_frame` requires).
    pub fn can_accept(&self, len: usize) -> (b: bool)
        requires
            self.wf(),
        ensures
            b == self.spec_frame_reader().can_feed(len as nat),
    {
        self.frame_reader.can_feed_len(len)
    }

    /// The frame buffer, with the coding reader that fills it.
    pub fn read_target(&mut self) -> (r: (&mut [u8], &mut R))
        requires
            old(self).wf(),
        ensures
            *r.1 == old(self).spec_coding_reader(),
            r.0@ == old(self).spec_frame_reader().spec_buffer(),
            final(self).spec_frame_reader().spec_buffer() == final(r.0)@,
            final(r.0)@.len() == r.0@.len() ==> final(self).wf(),
    {
        (self.frame_reader.buffer_mut(), &mut self.coding_reader)
    }

    /// The last step of a receive, once the coding reader put `len` bytes
    /// in the frame buffer: no bytes is no packet (`Ok(0)`); a frame that
    /// does not parse is `InvalidFrame`; else the first packet of the new
    /// frame is copied into `buffer` (0 bytes when it has none).
    pub fn accept_frame<E>(&mut self, len: usize, buffer: &mut [u8]) -> (r: Result<usize, LinkError<E>>)
        requires
            old(self).wf(),
            old(self).spec_frame_reader().can_feed(len as nat),
        ensures
            final(self).wf(),
            len == 0 ==> r == Ok::<usize, LinkError<E>>(0),
            r is Err || len == 0 ==> final(buffer)@ == old(buffer)@,
            len > 0 && !old(self).spec_frame_reader().spec_feed_ok(len as nat) ==> r == Err::<
                usize,
                LinkError<E>,
            >(LinkError::InvalidFrame),
            len > 0 && old(self).spec_frame_reader().spec_feed_ok(len as nat) ==> match old(
                self,
            ).spec_frame_reader().spec_fed_next(len as nat) {
                None => r == Ok::<usize, LinkError<E>>(0) && final(buffer)@ == old(buffer)@,
                Some(p) => {
                    let n = if p.len() < old(buffer)@.len() {
                        p.len()
                    } else {
                        old(buffer)@.len()
                    };
                    &&& r == Ok::<usize, LinkError<E>>(n as usize)
                    &&& final(buffer)@ == crate::utils::splice(old(buffer)@, 0, p.subrange(0, n as int))
                }
            },
    {
        if len == 0 {
            return Ok(0);
        }
        match self.frame_reader.feed(len) {
            Ok(()) => {},
            Err(_) => {
                return Err(LinkError::InvalidFrame);
            },
        }
        match self.next_packet(buffer) {
            Some(n) => Ok(n),
            None => Ok(0),
        }
    }
}

} // verus!
