//! Transfer frame definitions for the data link layer.
//!
//! Contains the protocol data units (TC, TM, AOS, Proximity-1,
//! USLP) that carry user data and control information across the
//! space link.
use vstd::prelude::*;

pub mod sdlp;
pub mod uslp;

verus! {

/// Push failed: the frame cannot accept this packet.
#[derive(Debug, Clone, Copy, PartialEq, Eq, Structural)]
pub enum PushError {
    /// The current frame is full but the packet would fit
    /// after a flush.
    Full,
    /// The packet exceeds the maximum data field length and
    /// can never fit in any frame.
    TooLarge,
}

/// What pushing `len` bytes into a frame whose data field holds `cap`
/// bytes, `used` of them taken, returns: `TooLarge` beyond the capacity,
/// `Full` beyond what is left of it.
pub open spec fn spec_push_outcome(len: nat, cap: nat, used: nat) -> Result<(), PushError> {
    if len > cap {
        Err(PushError::TooLarge)
    } else if len > cap - used {
        Err(PushError::Full)
    } else {
        Ok(())
    }
}

/// Accumulates packets into a transfer frame.
///
/// Owns the frame buffer internally.
/// [`push()`](FrameWriter::push) writes packet data at the
/// current offset. [`finish()`](FrameWriter::finish) stamps the
/// header and returns a borrow of the completed frame.
pub trait FrameWriter {
    /// Error type for frame construction.
    type Error;

    /// The writer's buffer can hold the largest frame it may build.
    spec fn ready(&self) -> bool;

    /// No packet has been pushed into the current frame.
    spec fn spec_is_empty(&self) -> bool;

    /// What pushing `data` into the current frame returns.
    spec fn spec_push_result(&self, data: Seq<u8>) -> Result<(), PushError>;

    /// Whether finishing the current frame builds it.
    spec fn spec_finish_ok(&self) -> bool;

    /// The length of the frame that finishing the current frame builds.
    spec fn spec_finished_len(&self) -> nat;

    /// The frame that finishing the current frame builds.
    spec fn spec_finished_frame(&self) -> Seq<u8>;

    /// Returns `true` if no packets have been pushed yet.
    fn is_empty(&self) -> (b: bool)
        ensures
            b == self.spec_is_empty(),
    ;

    /// Whether finishing the current frame builds it.
    fn finish_ok(&self) -> (b: bool)
        requires
            self.ready(),
        ensures
            b == self.spec_finish_ok(),
    ;

    /// The length of the frame that finishing the current frame builds.
    fn finished_len(&self) -> (n: usize)
        requires
            self.ready(),
        ensures
            n == self.spec_finished_len(),
    ;

    /// Push a packet into the frame at the current offset.
    fn push(&mut self, data: &[u8]) -> (r: Result<(), PushError>)
        requires
            old(self).ready(),
        ensures
            final(self).ready(),
            r == old(self).spec_push_result(data@),
    ;

    /// Stamp the frame header and return the finished frame.
    /// Resets internal state for the next frame.
    fn finish(&mut self) -> (r: Result<&[u8], Self::Error>)
        requires
            old(self).ready(),
        ensures
            final(self).ready(),
            r is Ok <==> old(self).spec_finish_ok(),
            r matches Ok(f) ==> f@.len() == old(self).spec_finished_len() && f@
                == old(self).spec_finished_frame(),
    ;
}

/// Extracts packets from a received transfer frame.
///
/// Owns the frame buffer internally.
/// [`buffer_mut()`](FrameReader::buffer_mut) provides write
/// access for the coding layer to fill.
/// [`feed()`](FrameReader::feed) validates the header.
/// [`next()`](FrameReader::next) yields zero-copy packet
/// sub-slices.
pub trait FrameReader {
    /// Error type for frame parsing.
    type Error;

    /// The reader can examine the first `len` bytes of its buffer as a
    /// frame.
    spec fn can_feed(&self, len: nat) -> bool;

    /// The reader's own invariant.
    spec fn ready(&self) -> bool;

    /// The bytes of the reader's buffer.
    spec fn spec_buffer(&self) -> Seq<u8>;

    /// Whether feeding the first `len` bytes of the buffer succeeds.
    spec fn spec_feed_ok(&self, len: nat) -> bool;

    /// The packet that `next` hands out, if any.
    spec fn spec_next(&self) -> Option<Seq<u8>>;

    /// The packet that `next` hands out after feeding the first `len`
    /// bytes of the buffer succeeds.
    spec fn spec_fed_next(&self, len: nat) -> Option<Seq<u8>>;

    /// Returns a mutable reference to the internal buffer
    /// for the coding layer to write received data into.
    fn buffer_mut(&mut self) -> (b: &mut [u8])
        requires
            old(self).ready(),
        ensures
            b@ == old(self).spec_buffer(),
            final(self).spec_buffer() == final(b)@,
            final(b)@.len() == b@.len() ==> final(self).ready(),
    ;

    /// The length of the reader's buffer.
    fn buffer_len(&self) -> (n: usize)
        ensures
            n == self.spec_buffer().len(),
    ;

    /// Whether the reader can examine the first `len` bytes of its buffer
    /// as a frame.
    fn can_feed_len(&self, len: usize) -> (b: bool)
        requires
            self.ready(),
        ensures
            b == self.can_feed(len as nat),
    ;

    /// Validate the frame header for `len` bytes of data
    /// in the buffer and prepare for packet extraction.
    fn feed(&mut self, len: usize) -> (r: Result<(), Self::Error>)
        requires
            old(self).ready(),
            old(self).can_feed(len as nat),
        ensures
            final(self).ready(),
            r is Ok <==> old(self).spec_feed_ok(len as nat),
            r is Ok ==> final(self).spec_next() == old(self).spec_fed_next(len as nat),
    ;

    /// Return the next packet as a sub-slice of the buffer.
    ///
    /// Returns `None` when all packets have been extracted.
    fn next(&mut self) -> (r: Option<&[u8]>)
        requires
            old(self).ready(),
        ensures
            final(self).ready(),
            match old(self).spec_next() {
                None => r is None,
                Some(p) => r matches Some(d) && d@ == p,
            },
    ;
}

} // verus!
