use leodos_protocols::datalink::spp::segmentation::segmenter::Segmenter;
use leodos_protocols::network::spp::SequenceCount;
use leodos_protocols::network::spp::SequenceFlag;

#[test]
fn segmenter_splits_into_first_continuation_last() {
    let data: Vec<u8> = (0u8..10).collect();
    let mut seg = Segmenter::new(&data, 4, SequenceCount::from_value(5));

    let a = seg.next().unwrap();
    assert_eq!(a.sequence_flag, SequenceFlag::First);
    assert_eq!(a.sequence_count.value(), 5);
    assert_eq!(a.payload, &data[0..4]);

    let b = seg.next().unwrap();
    assert_eq!(b.sequence_flag, SequenceFlag::Continuation);
    assert_eq!(b.sequence_count.value(), 6);
    assert_eq!(b.payload, &data[4..8]);

    let c = seg.next().unwrap();
    assert_eq!(c.sequence_flag, SequenceFlag::Last);
    assert_eq!(c.sequence_count.value(), 7);
    assert_eq!(c.payload, &data[8..10]);

    assert!(seg.next().is_none());
    assert!(seg.next().is_none());
}

#[test]
fn segmenter_payloads_reassemble_the_data() {
    let data: Vec<u8> = (0u8..=200).collect();
    let mut seg = Segmenter::new(&data, 7, SequenceCount::new());
    let mut out = Vec::new();
    let mut count = 0u16;
    while let Some(s) = seg.next() {
        assert_eq!(s.sequence_count.value(), count);
        count += 1;
        out.extend_from_slice(s.payload);
    }
    assert_eq!(out, data);
    assert_eq!(count, 29);
}

#[test]
fn segmenter_single_segment_is_flagged_first() {
    let data = [1u8, 2, 3];
    let mut seg = Segmenter::new(&data, 4, SequenceCount::new());
    let a = seg.next().unwrap();
    assert_eq!(a.sequence_flag, SequenceFlag::First);
    assert_eq!(a.payload, &data[..]);
    assert!(seg.next().is_none());
}

#[test]
fn segmenter_exact_multiple_ends_with_last() {
    let data = [9u8; 8];
    let mut seg = Segmenter::new(&data, 4, SequenceCount::new());
    assert_eq!(seg.next().unwrap().sequence_flag, SequenceFlag::First);
    let b = seg.next().unwrap();
    assert_eq!(b.sequence_flag, SequenceFlag::Last);
    assert_eq!(b.payload.len(), 4);
    assert!(seg.next().is_none());
}

#[test]
fn segmenter_empty_data_yields_nothing() {
    let data: [u8; 0] = [];
    let mut seg = Segmenter::new(&data, 4, SequenceCount::new());
    assert!(seg.next().is_none());
}

#[test]
fn segmenter_sequence_count_wraps_at_14_bits() {
    let data = [0u8; 6];
    let mut seg = Segmenter::new(&data, 3, SequenceCount::from_value(0x3FFF));
    assert_eq!(seg.next().unwrap().sequence_count.value(), 0x3FFF);
    assert_eq!(seg.next().unwrap().sequence_count.value(), 0);
}

#[test]
fn sequence_count_keeps_low_14_bits() {
    assert_eq!(SequenceCount::from_value(0x4001).value(), 1);
    let mut c = SequenceCount::from_value(0x3FFE);
    c.increment();
    assert_eq!(c.value(), 0x3FFF);
    c.increment();
    assert_eq!(c.value(), 0);
    assert_eq!(SequenceFlag::Last.code(), 0b10);
}
