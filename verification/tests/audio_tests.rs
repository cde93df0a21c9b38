use vrc_companion::audio::{is_silent_after, ChunkBuffer, RECORDING_GRACE_NANOS};

#[test]
fn silence_waits_for_the_grace_period() {
    let second: u128 = 1_000_000_000;
    assert!(!is_silent_after(Some(second), 10 * second, 2 * second));
    assert!(is_silent_after(Some(RECORDING_GRACE_NANOS), 2 * second, 2 * second));
    assert!(!is_silent_after(Some(4 * second), second, 2 * second));
    assert!(is_silent_after(None, 2 * second, 2 * second));
    assert!(!is_silent_after(None, 2 * second - 1, 2 * second));
}

#[test]
fn chunks_are_cut_at_the_chunk_size() {
    let mut buf: ChunkBuffer<f32> = ChunkBuffer::new(3);
    assert_eq!(buf.push(0.1), None);
    assert_eq!(buf.push(0.2), None);
    assert_eq!(buf.push(0.3), Some(vec![0.1, 0.2, 0.3]));
    let chunks = buf.push_all(&[1.0, 2.0, 3.0, 4.0, 5.0, 6.0, 7.0]);
    assert_eq!(chunks, vec![vec![1.0, 2.0, 3.0], vec![4.0, 5.0, 6.0]]);
    assert_eq!(buf.push_all(&[8.0, 9.0]), vec![vec![7.0, 8.0, 9.0]]);
}

#[test]
fn zero_chunk_size_hands_out_single_samples() {
    let mut buf: ChunkBuffer<i16> = ChunkBuffer::new(0);
    assert_eq!(buf.push_all(&[1, 2]), vec![vec![1], vec![2]]);
}

#[test]
fn fewer_than_a_chunk_stays_pending() {
    let mut buf: ChunkBuffer<u8> = ChunkBuffer::new(4);
    let chunks = buf.push_all(&[1, 2, 3, 4, 5, 6]);
    assert_eq!(chunks, vec![vec![1, 2, 3, 4]]);
    assert_eq!(buf.push_all(&[7]), Vec::<Vec<u8>>::new());
    assert_eq!(buf.push(8), Some(vec![5, 6, 7, 8]));
}
