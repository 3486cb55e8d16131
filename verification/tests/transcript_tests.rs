use winboat_bridge::transcript::{Transcript, CHUNK_BUFFER, TRANSCRIPT_CAPACITY};

#[test]
fn limits_are_as_documented() {
    assert_eq!(TRANSCRIPT_CAPACITY, 32);
    assert_eq!(CHUNK_BUFFER, 1024);
}

#[test]
fn new_transcript_is_empty() {
    let t = Transcript::new(4);
    assert!(t.is_empty());
    assert!(t.has_room());
    assert_eq!(t.len(), 0);
    assert!(t.front().is_none());
}

#[test]
fn chunks_leave_in_the_order_they_came() {
    let mut t = Transcript::new(4);
    assert!(t.offer(b"one".to_vec()).is_none());
    assert!(t.offer(b"two".to_vec()).is_none());
    assert!(t.offer(b"three".to_vec()).is_none());
    assert_eq!(t.len(), 3);
    assert_eq!(t.front().unwrap(), b"one");
    assert_eq!(t.advance(3), 3);
    assert_eq!(t.front().unwrap(), b"two");
    assert_eq!(t.advance(3), 3);
    assert_eq!(t.front().unwrap(), b"three");
    assert_eq!(t.advance(5), 5);
    assert!(t.is_empty());
}

#[test]
fn full_transcript_hands_the_chunk_back() {
    let mut t = Transcript::new(2);
    assert!(t.offer(vec![1]).is_none());
    assert!(t.offer(vec![2]).is_none());
    assert!(!t.has_room());
    assert_eq!(t.offer(vec![3]), Some(vec![3]));
    assert_eq!(t.len(), 2);
    t.advance(1);
    assert!(t.has_room());
    assert!(t.offer(vec![3]).is_none());
    assert_eq!(t.front().unwrap(), &[2]);
}

#[test]
fn empty_chunk_is_not_queued() {
    let mut t = Transcript::new(2);
    assert_eq!(t.offer(Vec::new()), Some(Vec::new()));
    assert!(t.is_empty());
}

#[test]
fn transcript_without_capacity_takes_nothing() {
    let mut t = Transcript::new(0);
    assert!(!t.has_room());
    assert_eq!(t.offer(vec![9]), Some(vec![9]));
}

#[test]
fn partial_write_keeps_the_rest_in_front() {
    let mut t = Transcript::new(4);
    t.offer(b"abcdef".to_vec());
    t.offer(b"gh".to_vec());
    assert_eq!(t.advance(2), 2);
    assert_eq!(t.front().unwrap(), b"cdef");
    assert_eq!(t.len(), 2);
    assert_eq!(t.advance(3), 3);
    assert_eq!(t.front().unwrap(), b"f");
    assert_eq!(t.advance(1), 1);
    assert_eq!(t.front().unwrap(), b"gh");
    assert_eq!(t.len(), 1);
}

#[test]
fn advance_counts_no_more_than_the_front() {
    let mut t = Transcript::new(4);
    t.offer(b"abc".to_vec());
    t.offer(b"de".to_vec());
    assert_eq!(t.advance(10), 3);
    assert_eq!(t.front().unwrap(), b"de");
    assert_eq!(t.advance(0), 0);
    assert_eq!(t.front().unwrap(), b"de");
}

#[test]
fn advance_on_empty_transcript_counts_nothing() {
    let mut t = Transcript::new(4);
    assert_eq!(t.advance(5), 0);
    assert!(t.is_empty());
}

#[test]
fn clear_drops_everything() {
    let mut t = Transcript::new(4);
    t.offer(b"abc".to_vec());
    t.offer(b"de".to_vec());
    t.advance(1);
    t.clear();
    assert!(t.is_empty());
    assert!(t.front().is_none());
    assert!(t.offer(b"x".to_vec()).is_none());
    assert_eq!(t.front().unwrap(), b"x");
}

#[test]
fn every_byte_leaves_once_whatever_the_write_sizes() {
    let chunks: Vec<Vec<u8>> = (1u8..=20).map(|n| (0..n).map(|k| n * 7 + k).collect()).collect();
    let expected: Vec<u8> = chunks.iter().flatten().copied().collect();
    let mut t = Transcript::new(TRANSCRIPT_CAPACITY);
    for chunk in chunks {
        assert!(t.offer(chunk).is_none());
    }
    let mut out = Vec::new();
    let mut size = 1;
    while let Some(front) = t.front() {
        let n = size.min(front.len());
        out.extend_from_slice(&front[..n]);
        assert_eq!(t.advance(n), n);
        size = size % 5 + 1;
    }
    assert_eq!(out, expected);
}
