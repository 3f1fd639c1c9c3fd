//! Frame link channel with link security.
//!
//! [`DatalinkWriter`] composes a frame format ([`FrameWriter`]), a
//! [`SecurityProcessor`] and a coding writer `W`: packets accumulate into
//! frames, and each finished frame is secured in a scratch buffer before it
//! goes to the coding pipeline. The coding pipeline is asynchronous and is
//! driven by the caller; the methods here take the decisions and hand out
//! the secured frame with the coding writer that takes it.
//!
//! [`DatalinkReader`] composes a frame format ([`FrameReader`]), a
//! [`SecurityProcessor`] and a coding reader `R`: a frame that the coding
//! pipeline put in the frame buffer has its security removed in place,
//! then is fed to the frame reader, whose packets are handed out.
use vstd::prelude::*;

use crate::datalink::framing::{FrameReader, FrameWriter, PushError};
use crate::datalink::link::channel::copy_packet;
use crate::datalink::security::SecurityProcessor;
use crate::utils::{copy_in, copy_out, splice};

verus! {

/// Size of the scratch buffer in which frames are secured.
pub const SCRATCH_LEN: usize = 2048;

/// Errors that can occur during link channel operations.
#[derive(Debug, Clone)]
pub enum DatalinkError<E> {
    /// The underlying coding layer returned an error.
    Link(E),
    /// The data exceeds the maximum frame data length.
    FrameTooLarge,
    /// A received frame failed to parse.
    InvalidFrame,
    /// Failed to construct a transfer frame.
    BuildError,
    /// Security processing failed.
    Security,
}

/// Owns a [`FrameWriter`], a [`SecurityProcessor`] and a coding writer,
/// accumulating packets into frames and flushing them through
/// security → coding.
pub struct DatalinkWriter<F, W, S> {
    frame_writer: F,
    security: S,
    coding_writer: W,
    scratch: Vec<u8>,
}

/// The number of frame bytes that go into the scratch buffer: the frame,
/// cut to the scratch buffer's size.
pub open spec fn spec_secured_len(frame_len: nat) -> nat {
    if frame_len < SCRATCH_LEN {
        frame_len
    } else {
        SCRATCH_LEN as nat
    }
}

impl<F: FrameWriter, W, S: SecurityProcessor> DatalinkWriter<F, W, S> {
    /// The frame writer.
    pub closed spec fn spec_frame_writer(&self) -> F {
        self.frame_writer
    }

    /// The security processor.
    pub closed spec fn spec_security(&self) -> S {
        self.security
    }

    /// The coding writer.
    pub closed spec fn spec_coding_writer(&self) -> W {
        self.coding_writer
    }

    /// The frame writer is ready.
    pub open spec fn wf(&self) -> bool {
        self.spec_frame_writer().ready()
    }

    /// A flush that builds a frame hands the security processor a frame
    /// length it accepts.
    pub open spec fn flush_secures(&self) -> bool {
        !self.spec_frame_writer().spec_is_empty() && self.spec_frame_writer().spec_finish_ok()
            ==> self.spec_security().accepts(
            spec_secured_len(self.spec_frame_writer().spec_finished_len()),
        )
    }

    /// Whether a flush now meets what `start_flush` requires.
    pub fn can_flush(&self) -> (b: bool)
        requires
            self.wf(),
        ensures
            b == self.flush_secures(),
    {
        if self.frame_writer.is_empty() || !self.frame_writer.finish_ok() {
            return true;
        }
        let n = self.frame_writer.finished_len();
        let len = if n < SCRATCH_LEN {
            n
        } else {
            SCRATCH_LEN
        };
        self.security.accepts_len(len)
    }

    /// Creates a new link writer.
    pub fn new(frame_writer: F, coding_writer: W, security: S) -> (w: Self)
        requires
            frame_writer.ready(),
        ensures
            w.wf(),
            w.spec_frame_writer() == frame_writer,
            w.spec_coding_writer() == coding_writer,
            w.spec_security() == security,
    {
        DatalinkWriter { frame_writer, security, coding_writer, scratch: Vec::new() }
    }

    /// The first step of a write: pushes `data` into the current frame.
    /// `Ok(false)` when it went in; `Ok(true)` when the frame is full, so
    /// that it has to be flushed and `data` pushed again; `FrameTooLarge`
    /// when `data` can never fit in a frame.
    pub fn start_write<E>(&mut self, data: &[u8]) -> (r: Result<bool, DatalinkError<E>>)
        requires
            old(self).wf(),
        ensures
            final(self).wf(),
            final(self).spec_coding_writer() == old(self).spec_coding_writer(),
            final(self).spec_security() == old(self).spec_security(),
            match old(self).spec_frame_writer().spec_push_result(data@) {
                Ok(()) => r == Ok::<bool, DatalinkError<E>>(false),
                Err(PushError::Full) => r == Ok::<bool, DatalinkError<E>>(true),
                Err(PushError::TooLarge) => r == Err::<bool, DatalinkError<E>>(
                    DatalinkError::FrameTooLarge,
                ),
            },
    {
        match self.frame_writer.push(data) {
            Ok(()) => Ok(false),
            Err(PushError::TooLarge) => Err(DatalinkError::FrameTooLarge),
            Err(PushError::Full) => Ok(true),
        }
    }

    /// The last step of a write that had to flush first: pushes `data`
    /// again; a refusal is `FrameTooLarge`.
    pub fn finish_write<E>(&mut self, data: &[u8]) -> (r: Result<(), DatalinkError<E>>)
        requires
            old(self).wf(),
        ensures
            final(self).wf(),
            final(self).spec_coding_writer() == old(self).spec_coding_writer(),
            final(self).spec_security() == old(self).spec_security(),
            old(self).spec_frame_writer().spec_push_result(data@) is Ok ==> r is Ok,
            old(self).spec_frame_writer().spec_push_result(data@) is Err ==> r == Err::<
                (),
                DatalinkError<E>,
            >(DatalinkError::FrameTooLarge),
    {
        match self.frame_writer.push(data) {
            Ok(()) => Ok(()),
            Err(_) => Err(DatalinkError::FrameTooLarge),
        }
    }

    /// The first step of a flush: finishes the current frame, copies it
    /// (cut to 2048 bytes) into the scratch buffer and applies security
    /// there. `None` when no packet is pending; `BuildError` when the frame
    /// cannot be built; `Security` when securing it fails; else the secured
    /// frame, with the coding writer to write it to.
    pub fn start_flush<E>(&mut self) -> (r: Result<Option<(&[u8], &mut W)>, DatalinkError<E>>)
        requires
            old(self).wf(),
            old(self).flush_secures(),
        ensures
            old(self).spec_frame_writer().spec_is_empty() ==> r matches Ok(None),
            !old(self).spec_frame_writer().spec_is_empty() && !old(self).spec_frame_writer().spec_finish_ok()
                ==> r matches Err(DatalinkError::BuildError),
            !old(self).spec_frame_writer().spec_is_empty() && old(self).spec_frame_writer().spec_finish_ok()
                ==> {
                let fw = old(self).spec_frame_writer();
                let cut = fw.spec_finished_frame().subrange(0, spec_secured_len(fw.spec_finished_len()) as int);
                match old(self).spec_security().spec_applied(cut) {
                    Some(s) => r matches Ok(Some((f, w))) && f@ == s && *w == old(self).spec_coding_writer(),
                    None => r matches Err(DatalinkError::Security),
                }
            },
    {
        if self.frame_writer.is_empty() {
            return Ok(None);
        }
        let frame = match self.frame_writer.finish() {
            Ok(f) => f,
            Err(_) => {
                return Err(DatalinkError::BuildError);
            },
        };
        let len = if frame.len() < SCRATCH_LEN {
            frame.len()
        } else {
            SCRATCH_LEN
        };
        self.scratch = copy_out(frame, 0, len);
        let secured_len = match self.security.apply(self.scratch.as_mut_slice()) {
            Ok(n) => n,
            Err(_) => {
                return Err(DatalinkError::Security);
            },
        };
        proof {
            assert(self.scratch@.subrange(0, secured_len as int) =~= self.scratch@);
        }
        Ok(Some((vstd::slice::slice_subrange(self.scratch.as_slice(), 0, secured_len), &mut self.coding_writer)))
    }
}

/// Owns a [`FrameReader`], a [`SecurityProcessor`] and a coding reader,
/// reading frames through coding → security removal → packet extraction.
pub struct DatalinkReader<F, R, S> {
    frame_reader: F,
    security: S,
    coding_reader: R,
}

impl<F: FrameReader, R, S: SecurityProcessor> DatalinkReader<F, R, S> {
    /// The frame reader.
    pub closed spec fn spec_frame_reader(&self) -> F {
        self.frame_reader
    }

    /// The security processor.
    pub closed spec fn spec_security(&self) -> S {
        self.security
    }

    /// The coding reader.
    pub closed spec fn spec_coding_reader(&self) -> R {
        self.coding_reader
    }

    /// The frame reader is ready.
    pub open spec fn wf(&self) -> bool {
        self.spec_frame_reader().ready()
    }

    /// Creates a new link reader.
    pub fn new(frame_reader: F, coding_reader: R, security: S) -> (r: Self)
        requires
            frame_reader.ready(),
        ensures
            r.wf(),
            r.spec_frame_reader() == frame_reader,
            r.spec_coding_reader() == coding_reader,
            r.spec_security() == security,
    {
        DatalinkReader { frame_reader, security, coding_reader }
    }

    /// The first step of a read: copies the next packet of the current
    /// frame into `buffer`, cut to its length, and returns the number of
    /// bytes copied; `None` when the frame has no packet left, and then a
    /// new frame has to be read.
    pub fn next_packet(&mut self, buffer: &mut [u8]) -> (r: Option<usize>)
        requires
            old(self).wf(),
        ensures
            final(self).wf(),
            final(self).spec_coding_reader() == old(self).spec_coding_reader(),
            final(self).spec_security() == old(self).spec_security(),
            match old(self).spec_frame_reader().spec_next() {
                None => r is None && final(buffer)@ == old(buffer)@,
                Some(p) => {
                    let n = if p.len() < old(buffer)@.len() {
                        p.len()
                    } else {
                        old(buffer)@.len()
                    };
                    &&& r == Some(n as usize)
                    &&& final(buffer)@ == splice(old(buffer)@, 0, p.subrange(0, n as int))
                }
            },
    {
        match self.frame_reader.next() {
            Some(pkt) => Some(copy_packet(pkt, buffer)),
            None => None,
        }
    }

    /// The frame buffer, with the coding reader that fills it.
    pub fn read_target(&mut self) -> (r: (&mut [u8], &mut R))
        requires
            old(self).wf(),
        ensures
            *r.1 == old(self).spec_coding_reader(),
            r.0@ == old(self).spec_frame_reader().spec_buffer(),
            final(self).spec_frame_reader().spec_buffer() == final(r.0)@,
            final(r.0)@.len() == r.0@.len() ==> final(self).wf(),
    {
        (self.frame_reader.buffer_mut(), &mut self.coding_reader)
    }

    /// Whether removing security from a frame of `len` bytes meets what
    /// `remove_security` requires.
    pub fn can_remove_security(&self, len: usize) -> (b: bool)
        ensures
            b == (len <= self.spec_frame_reader().spec_buffer().len() && (len > 0
                ==> self.spec_security().accepts(len as nat))),
    {
        len <= self.frame_reader.buffer_len() && (len == 0 || self.security.accepts_len(len))
    }

    /// The second step of a read, once the coding reader put `len` bytes
    /// in the frame buffer: removes security from them in place.
    /// `Ok(false)` when no bytes came (nothing to do); `Security` when the
    /// processor refuses the frame (the buffer is left as it was); else
    /// `Ok(true)`, and the buffer starts with the frame as the processor
    /// left it.
    pub fn remove_security<E>(&mut self, len: usize) -> (r: Result<bool, DatalinkError<E>>)
        requires
            old(self).wf(),
            len <= old(self).spec_frame_reader().spec_buffer().len(),
            len > 0 ==> old(self).spec_security().accepts(len as nat),
        ensures
            final(self).wf(),
            final(self).spec_coding_reader() == old(self).spec_coding_reader(),
            len == 0 ==> (r matches Ok(false) && *final(self) == *old(self)),
            len > 0 ==> {
                let b0 = old(self).spec_frame_reader().spec_buffer();
                match old(self).spec_security().spec_processed(b0.subrange(0, len as int)) {
                    None => (r matches Err(DatalinkError::Security))
                        && final(self).spec_frame_reader().spec_buffer() == b0,
                    Some(p) => (r matches Ok(true)) && final(self).spec_frame_reader().spec_buffer()
                        == splice(b0, 0, p),
                }
            },
    {
        if len == 0 {
            return Ok(false);
        }
        let b = self.frame_reader.buffer_mut();
        let mut frame = copy_out(b, 0, len);
        let ok = match self.security.process(frame.as_mut_slice()) {
            Ok(_) => true,
            Err(_) => false,
        };
        if ok {
            copy_in(b, 0, frame.as_slice());
            Ok(true)
        } else {
            proof {
                assert(b@ =~= splice(b@, 0, b@.subrange(0, 0)));
            }
            Err(DatalinkError::Security)
        }
    }

    /// Whether a frame of `len` bytes in the frame buffer can be accepted
    /// (what `accept_frame` requires).
    pub fn can_accept(&self, len: usize) -> (b: bool)
        requires
            self.wf(),
        ensures
            b == self.spec_frame_reader().can_feed(len as nat),
    {
        self.frame_reader.can_feed_len(len)
    }

    /// The last step of a read: no bytes is no packet (`Ok(0)`); a frame
    /// that does not parse is `InvalidFrame`; else the first packet of the
    /// new frame is copied into `buffer` (0 bytes when it has none).
    pub fn accept_frame<E>(&mut self, len: usize, buffer: &mut [u8]) -> (r: Result<usize, DatalinkError<E>>)
        requires
            old(self).wf(),
            old(self).spec_frame_reader().can_feed(len as nat),
        ensures
            final(self).wf(),
            final(self).spec_coding_reader() == old(self).spec_coding_reader(),
            len == 0 ==> r == Ok::<usize, DatalinkError<E>>(0),
            r is Err || len == 0 ==> final(buffer)@ == old(buffer)@,
            len > 0 && !old(self).spec_frame_reader().spec_feed_ok(len as nat) ==> r == Err::<
                usize,
                DatalinkError<E>,
            >(DatalinkError::InvalidFrame),
            len > 0 && old(self).spec_frame_reader().spec_feed_ok(len as nat) ==> match old(self).spec_frame_reader().spec_fed_next(len as nat) {
                None => r == Ok::<usize, DatalinkError<E>>(0) && final(buffer)@ == old(buffer)@,
                Some(p) => {
                    let n = if p.len() < old(buffer)@.len() {
                        p.len()
                    } else {
                        old(buffer)@.len()
                    };
                    &&& r == Ok::<usize, DatalinkError<E>>(n as usize)
                    &&& final(buffer)@ == splice(old(buffer)@, 0, p.subrange(0, n as int))
                }
            },
    {
        if len == 0 {
            return Ok(0);
        }
        match self.frame_reader.feed(len) {
            Ok(()) => {},
            Err(_) => {
                return Err(DatalinkError::InvalidFrame);
            },
        }
        match self.frame_reader.next() {
            Some(pkt) => Ok(copy_packet(pkt, buffer)),
            None => Ok(0),
        }
    }
}

} // verus!
