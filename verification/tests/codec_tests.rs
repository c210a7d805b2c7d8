use jetgraph::codec::{CodecError, FrameCodec};

fn sample_dictionary() -> Vec<u8> {
    // A raw-content dictionary: repeated fragments of the frames below.
    let mut d = Vec::new();
    for _ in 0..64 {
        d.extend_from_slice(b"{\"did\":\"did:plc:\",\"time_us\":,\"commit\":{\"operation\":\"create\"}}");
    }
    d
}

#[test]
fn compressed_frame_round_trips_through_the_dictionary() {
    let dict = sample_dictionary();
    let payload = b"{\"did\":\"did:plc:abc\",\"time_us\":1704067200000000,\"commit\":null}".to_vec();
    let compressed = zstd::bulk::Compressor::with_dictionary(3, &dict)
        .expect("compressor")
        .compress(&payload)
        .expect("compress");
    assert_ne!(compressed, payload);

    let mut codec = FrameCodec::new(dict).expect("codec");
    let out = codec.decode_frame(compressed, true).expect("decode");
    assert_eq!(out, payload);
}

#[test]
fn uncompressed_frame_passes_through_unchanged() {
    let mut codec = FrameCodec::new(sample_dictionary()).expect("codec");
    let payload = b"{\"did\":\"did:plc:abc\"}".to_vec();
    let out = codec.decode_frame(payload.clone(), false).expect("decode");
    assert_eq!(out, payload);
}

#[test]
fn corrupt_frame_is_dropped_not_panicked() {
    let mut codec = FrameCodec::new(sample_dictionary()).expect("codec");
    let garbage = vec![0u8, 1, 2, 3, 4, 5, 6, 7];
    assert_eq!(codec.decode_frame(garbage, true), Err(CodecError::BadFrame));
}

#[test]
fn frame_compressed_without_the_dictionary_still_inflates_or_fails_cleanly() {
    // A frame compressed with a different dictionary must not crash the
    // decoder; it either inflates to the same bytes or is dropped.
    let other_dict = vec![7u8; 4096];
    let payload = vec![42u8; 1000];
    let compressed = zstd::bulk::Compressor::with_dictionary(3, &other_dict)
        .expect("compressor")
        .compress(&payload)
        .expect("compress");
    let mut codec = FrameCodec::new(sample_dictionary()).expect("codec");
    match codec.decode_frame(compressed, true) {
        Ok(out) => assert_eq!(out, payload),
        Err(e) => assert_eq!(e, CodecError::BadFrame),
    }
}

#[test]
fn oversized_payload_is_rejected() {
    let dict = sample_dictionary();
    let payload = vec![0u8; 500_000];
    let compressed = zstd::bulk::Compressor::with_dictionary(3, &dict)
        .expect("compressor")
        .compress(&payload)
        .expect("compress");
    let mut codec = FrameCodec::new(dict).expect("codec");
    assert_eq!(codec.decode_frame(compressed, true), Err(CodecError::BadFrame));
}
