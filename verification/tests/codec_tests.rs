use rust_m_queue::{decode, encode, open_fail_reason, IpcError, OpenFailReason, RawCommand};

#[test]
fn test_encode_exact_bytes() {
    let cmd = RawCommand::new(7, vec![5, 6]);
    let bytes = encode(&cmd);
    assert_eq!(bytes, vec![7, 2, 0, 0, 0, 0, 0, 0, 0, 5, 6]);
}

#[test]
fn test_encode_empty_payload() {
    let cmd = RawCommand::new(0, vec![]);
    let bytes = encode(&cmd);
    assert_eq!(bytes, vec![0, 0, 0, 0, 0, 0, 0, 0, 0]);
}

#[test]
fn test_round_trip() {
    let cmd = RawCommand::new(3, b"round trip payload".to_vec());
    let decoded = decode(&encode(&cmd)).unwrap();
    assert_eq!(decoded.sender(), 3);
    assert_eq!(decoded.data(), b"round trip payload".to_vec());
}

#[test]
fn test_round_trip_empty() {
    let cmd = RawCommand::new(255, vec![]);
    let decoded = decode(&encode(&cmd)).unwrap();
    assert_eq!(decoded.sender(), 255);
    assert_eq!(decoded.data(), Vec::<u8>::new());
}

#[test]
fn test_encode_matches_bincode() {
    // The wire form is bincode's fixed-width little-endian form of the same
    // origin byte and payload bytes.
    let cmd = RawCommand::new(9, vec![1, 2, 3, 4]);
    let ours = encode(&cmd);
    let theirs = bincode::serialize(&(9u8, vec![1u8, 2u8, 3u8, 4u8])).unwrap();
    assert_eq!(ours, theirs);
}

#[test]
fn test_decode_accepts_bincode() {
    let theirs = bincode::serialize(&(4u8, b"abc".to_vec())).unwrap();
    let decoded = decode(&theirs).unwrap();
    assert_eq!(decoded.sender(), 4);
    assert_eq!(decoded.data(), b"abc".to_vec());
}

#[test]
fn test_decode_rejects_short_input() {
    assert_eq!(decode(&[1, 2, 3]).err(), Some(IpcError::DeserializationFailed));
    assert_eq!(decode(&[]).err(), Some(IpcError::DeserializationFailed));
}

#[test]
fn test_decode_rejects_wrong_length_field() {
    // Header announces 3 payload bytes, but 2 follow.
    let bytes = vec![7, 3, 0, 0, 0, 0, 0, 0, 0, 5, 6];
    assert_eq!(decode(&bytes).err(), Some(IpcError::DeserializationFailed));
}

#[test]
fn test_command_getters() {
    let cmd = RawCommand::new(12, vec![8, 9]);
    assert_eq!(cmd.sender(), 12);
    assert_eq!(cmd.data(), vec![8, 9]);
}

#[test]
fn test_open_fail_reason_mapping() {
    assert_eq!(open_fail_reason(2), OpenFailReason::DoesNotExist);
    assert_eq!(open_fail_reason(13), OpenFailReason::PermissionDenied);
    assert_eq!(open_fail_reason(17), OpenFailReason::AlreadyExists);
    assert_eq!(open_fail_reason(22), OpenFailReason::NameInvalid);
    assert_eq!(open_fail_reason(36), OpenFailReason::NameInvalid);
    assert_eq!(open_fail_reason(99), OpenFailReason::Other(99));
}

#[test]
fn test_name_rules() {
    assert!(rust_m_queue::name_valid("/queue_a"));
    assert!(!rust_m_queue::name_valid("no_leading_separator"));
    assert!(!rust_m_queue::name_valid("/"));
    assert!(!rust_m_queue::name_valid("/two/separators"));
    assert!(!rust_m_queue::name_valid(""));
    let long = format!("/{}", "x".repeat(300));
    assert!(!rust_m_queue::name_valid(&long));
}
