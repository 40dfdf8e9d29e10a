use rcopy::{
    decode_position, encode_position, progress_file_path, read_position, resolve_start,
    CheckpointLookup, IoFailure, IoFailureKind, ProgFileInvalidCause, RCopyError,
};

#[test]
fn encode_is_big_endian() {
    assert_eq!(encode_position(0x0102_0304_0506_0708), vec![1, 2, 3, 4, 5, 6, 7, 8]);
    assert_eq!(encode_position(0), vec![0; 8]);
    assert_eq!(encode_position(i64::MAX), vec![0x7f, 0xff, 0xff, 0xff, 0xff, 0xff, 0xff, 0xff]);
}

#[test]
fn decode_reads_signed_big_endian() {
    assert_eq!(decode_position(&[0, 0, 0, 0, 0, 0, 1, 0]), 256);
    assert_eq!(decode_position(&[0, 0, 0, 0, 0, 0, 0, 5, 0xff]), 5);
    assert_eq!(decode_position(&[0xff; 8]), -1);
    assert_eq!(decode_position(&[0x80, 0, 0, 0, 0, 0, 0, 0]), i64::MIN);
}

#[test]
fn encode_then_decode_round_trips() {
    for p in [0i64, 1, 255, 256, 8 << 20, 123_456_789_012, i64::MAX] {
        assert_eq!(decode_position(&encode_position(p)), p);
    }
}

#[test]
fn valid_checkpoint_gives_position() {
    let bytes = encode_position(42);
    assert!(matches!(read_position("d.bin.progress", 8, &bytes, 100), Ok(42)));
    assert!(matches!(read_position("d.bin.progress", 8, &bytes, 42), Ok(42)));
    assert!(matches!(read_position("d.bin.progress", 8, &encode_position(0), 0), Ok(0)));
}

#[test]
fn checkpoint_of_wrong_size_is_invalid() {
    for len in [0u64, 7, 9, 100, 1 << 40] {
        let r = read_position("x.progress", len, &vec![0u8; len.min(8) as usize], 1000);
        match r {
            Err(RCopyError::ProgFileInvalid { fpath, cause }) => {
                assert_eq!(fpath, "x.progress");
                assert_eq!(cause, ProgFileInvalidCause::WrongEncodedSize(len));
            }
            other => panic!("unexpected {:?}", other),
        }
    }
}

#[test]
fn checkpoint_beyond_file_size_is_invalid() {
    let r = read_position("x.progress", 8, &encode_position(101), 100);
    match r {
        Err(RCopyError::ProgFileInvalid { cause, .. }) => assert_eq!(
            cause,
            ProgFileInvalidCause::PosOutOfRange { position: 101, file_size: 100 }
        ),
        other => panic!("unexpected {:?}", other),
    }
}

#[test]
fn negative_checkpoint_is_invalid() {
    let r = read_position("x.progress", 8, &[0xff; 8], 100);
    match r {
        Err(RCopyError::ProgFileInvalid { cause, .. }) => assert_eq!(
            cause,
            ProgFileInvalidCause::PosOutOfRange { position: -1, file_size: 100 }
        ),
        other => panic!("unexpected {:?}", other),
    }
}

#[test]
fn missing_checkpoint_starts_at_zero() {
    assert!(matches!(resolve_start("p", CheckpointLookup::Missing, 10), Ok(0)));
}

#[test]
fn unreadable_checkpoint_is_transient() {
    let f = IoFailure { kind: IoFailureKind::Other, message: "denied".to_string() };
    match resolve_start("p", CheckpointLookup::Failed(f), 10) {
        Err(e @ RCopyError::IoError(_)) => {
            assert!(e.is_retryable());
            assert_eq!(e.description(), "denied");
        }
        other => panic!("unexpected {:?}", other),
    }
}

#[test]
fn invalid_checkpoint_is_not_retryable() {
    let e = read_position("p", 3, &[1, 2, 3], 10).unwrap_err();
    assert!(!e.is_retryable());
    assert_eq!(e.description(), "invalid progress file");
    assert!(!RCopyError::NotImplemented.is_retryable());
    assert_eq!(RCopyError::NotImplemented.description(), "not implemented");
}

#[test]
fn checkpoint_that_shrank_while_read_is_transient() {
    match read_position("x.progress", 8, &[0, 0, 0], 100) {
        Err(e @ RCopyError::IoError(_)) => {
            assert!(e.is_retryable());
            assert!(matches!(e, RCopyError::IoError(f) if f.kind == IoFailureKind::UnexpectedEof));
        }
        other => panic!("unexpected {:?}", other),
    }
}

#[test]
fn progress_path_appends_to_extension() {
    assert_eq!(progress_file_path("dst/movie.mkv"), "dst/movie.mkv.progress");
    assert_eq!(progress_file_path("a.tar.gz"), "a.tar.gz.progress");
}

#[test]
fn progress_path_without_extension() {
    assert_eq!(progress_file_path("dst/README"), "dst/README..progress");
    assert_eq!(progress_file_path("dst/.profile"), "dst/.profile..progress");
    assert_eq!(progress_file_path("dir.d/file"), "dir.d/file..progress");
    assert_eq!(progress_file_path("up/.."), "up/....progress");
}
