//! Breaks a large data slice into chunks, each tagged with the sequence
//! flag and sequence count of the space packet that will carry it.
use vstd::prelude::*;

use crate::network::spp::SequenceCount;
use crate::network::spp::SequenceFlag;
use crate::network::spp::SEQUENCE_COUNT_MODULUS;

verus! {

/// Yields the chunks of `data` in order, `segment_size` bytes each except
/// possibly the last, for a sequence of segmented space packets.
pub struct Segmenter<'a> {
    data: &'a [u8],
    segment_size: usize,
    sequence_count: SequenceCount,
    position: usize,
    is_first: bool,
}

/// The data needed to construct one space packet of a segmented sequence.
#[derive(Debug, PartialEq, Eq)]
pub struct SegmentedPacketData<'a> {
    /// Whether this is the first, a continuation or the last segment.
    pub sequence_flag: SequenceFlag,
    /// The sequence count for this segment's packet.
    pub sequence_count: SequenceCount,
    /// The data carried by this segment.
    pub payload: &'a [u8],
}

/// The flag of the segment that starts at `position`: the first segment is
/// `First`; after it, a segment that reaches the end of the data is `Last`,
/// any other `Continuation`.
pub open spec fn spec_segment_flag(is_first: bool, position: int, segment_size: int, len: int) -> SequenceFlag {
    if is_first {
        SequenceFlag::First
    } else if position + segment_size >= len {
        SequenceFlag::Last
    } else {
        SequenceFlag::Continuation
    }
}

/// Where the segment that starts at `position` ends.
pub open spec fn spec_segment_end(position: int, segment_size: int, len: int) -> int {
    if position + segment_size < len {
        position + segment_size
    } else {
        len
    }
}

/// What a segment carries: its flag, its sequence count and its data.
pub type SegmentView = (SequenceFlag, u16, Seq<u8>);

/// The segments that a segmenter yields, one per call of `next`, from
/// offset `pos` of `data` on, with `first` telling whether none has been
/// yielded yet and `count` the sequence count of the next one (none for a
/// segment size of 0).
pub open spec fn spec_segments(data: Seq<u8>, size: nat, pos: nat, first: bool, count: u16) -> Seq<
    SegmentView,
>
    decreases data.len() - pos,
{
    if size == 0 || pos >= data.len() {
        Seq::empty()
    } else {
        let len = data.len() as int;
        let end = spec_segment_end(pos as int, size as int, len);
        seq![(spec_segment_flag(first, pos as int, size as int, len), count, data.subrange(pos as int, end))]
            + spec_segments(data, size, end as nat, false, ((count + 1) % (SEQUENCE_COUNT_MODULUS as int)) as u16)
    }
}

/// The data of a run of segments, one after the other.
pub open spec fn spec_concat_payloads(items: Seq<SegmentView>) -> Seq<u8>
    decreases items.len(),
{
    if items.len() == 0 {
        Seq::empty()
    } else {
        items[0].2 + spec_concat_payloads(items.drop_first())
    }
}

/// The segments of `data` from `pos` on, with a segment size above 0:
/// there are `ceil((len - pos) / size)` of them; put back together they
/// give the data; the `k`-th carries the first count plus `k` (modulo
/// 2^14); every one but the last carries `size` bytes and the last 1 to
/// `size`; the first is `First` when none was yielded before, the last is
/// `Last`, and the others are `Continuation`.
pub proof fn lemma_segments(data: Seq<u8>, size: nat, pos: nat, first: bool, count: u16)
    requires
        size > 0,
        pos <= data.len(),
        count < SEQUENCE_COUNT_MODULUS,
    ensures
        ({
            let items = spec_segments(data, size, pos, first, count);
            let r = data.len() - pos;
            &&& items.len() == (r + size - 1) / (size as int)
            &&& spec_concat_payloads(items) == data.subrange(pos as int, data.len() as int)
            &&& forall|k: int|
                0 <= k < items.len() ==> #[trigger] items[k].1 == (count + k) % (
                SEQUENCE_COUNT_MODULUS as int)
            &&& forall|k: int| 0 <= k < items.len() - 1 ==> #[trigger] items[k].2.len() == size
            &&& items.len() > 0 ==> 1 <= items.last().2.len() <= size
            &&& forall|k: int|
                0 <= k < items.len() ==> #[trigger] items[k].0 == (if k == 0 && first {
                    SequenceFlag::First
                } else if k == items.len() - 1 {
                    SequenceFlag::Last
                } else {
                    SequenceFlag::Continuation
                })
        }),
    decreases data.len() - pos,
{
    let items = spec_segments(data, size, pos, first, count);
    let len = data.len() as int;
    let r = len - pos;
    let m = SEQUENCE_COUNT_MODULUS as int;
    if pos >= data.len() {
        vstd::arithmetic::div_mod::lemma_basic_div(size - 1, size as int);
        assert(data.subrange(pos as int, len) =~= Seq::<u8>::empty());
    } else {
        let end = spec_segment_end(pos as int, size as int, len);
        let next_count = ((count + 1) % m) as u16;
        let tail = spec_segments(data, size, end as nat, false, next_count);
        let h = (spec_segment_flag(first, pos as int, size as int, len), count, data.subrange(pos as int, end));
        assert(items == seq![h] + tail);
        lemma_segments(data, size, end as nat, false, next_count);
        assert(items.drop_first() =~= tail);
        assert(items[0] == h);
        // count of segments
        if r <= size {
            assert(end == len);
            assert(tail.len() == 0);
            vstd::arithmetic::div_mod::lemma_basic_div(r - 1, size as int);
            vstd::arithmetic::div_mod::lemma_div_plus_one(r - 1, size as int);
        } else {
            assert(end == pos + size);
            vstd::arithmetic::div_mod::lemma_div_plus_one(r - size + size - 1, size as int);
        }
        // the data put back together
        assert(data.subrange(pos as int, len) =~= data.subrange(pos as int, end) + data.subrange(end, len));
        // counts
        assert forall|k: int| 0 <= k < items.len() implies #[trigger] items[k].1 == (count + k) % m by {
            if k == 0 {
                vstd::arithmetic::div_mod::lemma_small_mod(count as nat, m as nat);
            } else {
                assert(items[k] == tail[k - 1]);
                vstd::arithmetic::div_mod::lemma_add_mod_noop_right(k - 1, count + 1, m);
            }
        }
        // lengths
        assert forall|k: int| 0 <= k < items.len() - 1 implies #[trigger] items[k].2.len() == size by {
            if k > 0 {
                assert(items[k] == tail[k - 1]);
            }
        }
        if tail.len() > 0 {
            assert(items.last() == tail.last());
        }
        // flags
        assert forall|k: int| 0 <= k < items.len() implies #[trigger] items[k].0 == (if k == 0 && first {
            SequenceFlag::First
        } else if k == items.len() - 1 {
            SequenceFlag::Last
        } else {
            SequenceFlag::Continuation
        }) by {
            if k > 0 {
                assert(items[k] == tail[k - 1]);
            }
        }
    }
}

impl<'a> Segmenter<'a> {
    /// The data being segmented.
    pub closed spec fn spec_data(&self) -> Seq<u8> {
        self.data@
    }

    /// The number of data bytes per segment.
    pub closed spec fn spec_segment_size(&self) -> usize {
        self.segment_size
    }

    /// The sequence count that the next segment will carry.
    pub closed spec fn spec_sequence_count(&self) -> SequenceCount {
        self.sequence_count
    }

    /// The offset of the next segment in the data.
    pub closed spec fn spec_position(&self) -> usize {
        self.position
    }

    /// Whether no segment has been yielded yet.
    pub closed spec fn spec_is_first(&self) -> bool {
        self.is_first
    }

    /// The segments that calls of `next` yield from here on.
    pub open spec fn spec_items(&self) -> Seq<SegmentView> {
        spec_segments(
            self.spec_data(),
            self.spec_segment_size() as nat,
            self.spec_position() as nat,
            self.spec_is_first(),
            self.spec_sequence_count().spec_value(),
        )
    }

    /// The data that no segment has carried yet.
    pub open spec fn spec_remaining(&self) -> Seq<u8> {
        self.spec_data().subrange(self.spec_position() as int, self.spec_data().len() as int)
    }

    #[verifier::type_invariant]
    closed spec fn position_in_data(&self) -> bool {
        self.position <= self.data@.len()
    }

    /// Creates a segmenter that starts at the beginning of `data` with
    /// `start_count` as the first sequence count.
    pub fn new(data: &'a [u8], segment_size: usize, start_count: SequenceCount) -> (s: Self)
        ensures
            s.spec_data() == data@,
            s.spec_segment_size() == segment_size,
            s.spec_sequence_count() == start_count,
            s.spec_position() == 0,
            s.spec_is_first(),
            s.spec_items() == spec_segments(data@, segment_size as nat, 0, true, start_count.spec_value()),
    {
        Segmenter { data, segment_size, sequence_count: start_count, position: 0, is_first: true }
    }

    /// Yields the next segment, or `None` once all the data has been
    /// carried.
    ///
    /// The first segment is flagged `First` even when it carries all the
    /// data; a later one is flagged `Last` when it reaches the end of the
    /// data and `Continuation` otherwise. Each segment carries the current
    /// sequence count, which then advances by one modulo 2^14.
    pub fn next(&mut self) -> (r: Option<SegmentedPacketData<'a>>)
        ensures
            final(self).spec_data() == old(self).spec_data(),
            final(self).spec_segment_size() == old(self).spec_segment_size(),
            old(self).spec_segment_size() > 0 ==> old(self).spec_items() == match r {
                None => Seq::<SegmentView>::empty(),
                Some(seg) => seq![(seg.sequence_flag, seg.sequence_count.spec_value(), seg.payload@)]
                    + final(self).spec_items(),
            },
            old(self).spec_position() >= old(self).spec_data().len() ==> {
                &&& r is None
                &&& *final(self) == *old(self)
            },
            old(self).spec_position() < old(self).spec_data().len() ==> {
                let len = old(self).spec_data().len() as int;
                let pos = old(self).spec_position() as int;
                let size = old(self).spec_segment_size() as int;
                let end = spec_segment_end(pos, size, len);
                &&& r matches Some(seg)
                &&& seg.sequence_flag == spec_segment_flag(old(self).spec_is_first(), pos, size, len)
                &&& seg.sequence_count == old(self).spec_sequence_count()
                &&& seg.payload@ == old(self).spec_data().subrange(pos, end)
                &&& final(self).spec_position() == end
                &&& !final(self).spec_is_first()
                &&& final(self).spec_sequence_count().spec_value() == (
                old(self).spec_sequence_count().spec_value() + 1) % (SEQUENCE_COUNT_MODULUS as int)
                &&& old(self).spec_remaining() == seg.payload@ + final(self).spec_remaining()
            },
    {
        proof {
            use_type_invariant(&*self);
        }
        if self.position >= self.data.len() {
            return None;
        }
        let len = self.data.len();
        let reaches_end = self.segment_size >= len - self.position;
        let sequence_flag = if self.is_first {
            self.is_first = false;
            SequenceFlag::First
        } else if reaches_end {
            SequenceFlag::Last
        } else {
            SequenceFlag::Continuation
        };
        let end = if reaches_end {
            len
        } else {
            self.position + self.segment_size
        };
        let payload = vstd::slice::slice_subrange(self.data, self.position, end);
        let ghost old_pos = self.position as int;
        self.position = end;
        let item = SegmentedPacketData {
            sequence_flag,
            sequence_count: self.sequence_count,
            payload,
        };
        let mut next_count = self.sequence_count;
        next_count.increment();
        self.sequence_count = next_count;
        proof {
            assert(self.data@.subrange(old_pos, len as int) =~= payload@ + self.data@.subrange(
                end as int,
                len as int,
            ));
        }
        Some(item)
    }
}

} // verus!
