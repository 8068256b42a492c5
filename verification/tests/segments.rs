use quiche_mio_runner::segment::{effective_segment_size, next_segment, segments};

#[test]
fn coalesced_receive_yields_six_full_segments() {
    let list = segments(9000, 1500);
    assert_eq!(list.len(), 6);
    for (i, (start, end)) in list.iter().enumerate() {
        assert_eq!(*start, i * 1500);
        assert_eq!(end - start, 1500);
    }
}

#[test]
fn zero_segment_size_means_one_segment() {
    assert_eq!(effective_segment_size(1200, 0), 1200);
    assert_eq!(segments(1200, 0), vec![(0, 1200)]);
}

#[test]
fn last_segment_may_be_short() {
    assert_eq!(segments(3100, 1500), vec![(0, 1500), (1500, 3000), (3000, 3100)]);
    assert_eq!(next_segment(3100, 1500, 3000), Some((3000, 3100)));
    assert_eq!(next_segment(3100, 1500, 3100), None);
}

#[test]
fn empty_payload_has_no_segments() {
    assert_eq!(segments(0, 0), vec![]);
    assert_eq!(segments(0, 1500), vec![]);
    assert_eq!(next_segment(0, 0, 0), None);
}
