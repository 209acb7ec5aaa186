use actix_web_utils::{read_all, BodyReader, JsonPayloadError};

#[test]
fn overflow_on_chunks_summing_past_limit() {
    // limit 100, no declared length, chunks of sizes [60, 60]: the second
    // chunk crosses the limit.
    let chunks = vec![vec![b'a'; 60], vec![b'b'; 60]];
    let r = read_all(100, None, &chunks);
    assert!(matches!(r, Err(JsonPayloadError::Overflow { limit: 100 })));
}

#[test]
fn overflow_detected_at_first_crossing_chunk() {
    let mut reader = BodyReader::new(100, None);
    assert!(!reader.is_failed());
    let r1 = reader.push_chunk(&[b'x'; 60]);
    assert!(r1.is_ok());
    let r2 = reader.push_chunk(&[b'y'; 60]);
    assert!(matches!(r2, Err(JsonPayloadError::Overflow { limit: 100 })));
    // The buffer was discarded with the failure.
    assert!(reader.is_failed());
    let fin = reader.finish();
    assert!(matches!(fin, Err(JsonPayloadError::Overflow { limit: 100 })));
}

#[test]
fn declared_length_over_limit_rejected_without_reading() {
    let reader = BodyReader::new(100, Some(300));
    assert!(reader.is_failed());
    let fin = reader.finish();
    assert!(matches!(
        fin,
        Err(JsonPayloadError::OverflowKnownLength { length: 300, limit: 100 })
    ));
}

#[test]
fn declared_length_over_limit_ignores_chunks() {
    // Whatever the chunk list holds, the outcome is the up-front rejection.
    let chunks_a = vec![vec![1u8, 2, 3]];
    let chunks_b: Vec<Vec<u8>> = vec![];
    let a = read_all(10, Some(11), &chunks_a);
    let b = read_all(10, Some(11), &chunks_b);
    assert!(matches!(
        a,
        Err(JsonPayloadError::OverflowKnownLength { length: 11, limit: 10 })
    ));
    assert!(matches!(
        b,
        Err(JsonPayloadError::OverflowKnownLength { length: 11, limit: 10 })
    ));
}

#[test]
fn complete_read_concatenates_chunks() {
    let chunks = vec![b"abc".to_vec(), b"defg".to_vec()];
    let r = read_all(10, Some(7), &chunks);
    assert_eq!(r.unwrap(), b"abcdefg".to_vec());
}

#[test]
fn complete_read_at_exact_limit() {
    let chunks = vec![b"abc".to_vec(), b"defg".to_vec()];
    let r = read_all(7, None, &chunks);
    assert_eq!(r.unwrap(), b"abcdefg".to_vec());
}

#[test]
fn empty_stream_gives_empty_buffer() {
    let chunks: Vec<Vec<u8>> = vec![];
    let r = read_all(5, None, &chunks);
    assert_eq!(r.unwrap(), Vec::<u8>::new());
}

#[test]
fn buffered_and_would_overflow_track_the_reader() {
    let mut reader = BodyReader::new(10, None);
    assert_eq!(reader.buffered().unwrap().len(), 0);
    assert!(!reader.would_overflow(10));
    assert!(reader.would_overflow(11));
    reader.push_chunk(b"abcde").unwrap();
    assert_eq!(reader.buffered().unwrap().as_slice(), b"abcde");
    assert!(!reader.would_overflow(5));
    assert!(reader.would_overflow(6));
    let _ = reader.push_chunk(b"fghijk");
    assert!(reader.buffered().is_none());
    assert!(reader.would_overflow(0));
}

#[test]
fn oversized_single_chunk_discarded() {
    let mut reader = BodyReader::new(4, None);
    let r = reader.push_chunk(b"hello");
    assert!(matches!(r, Err(JsonPayloadError::Overflow { limit: 4 })));
    assert!(reader.is_failed());
}
