//! Tests of the persisted record: serialization, parsing, the read
//! protocol and the checksum.
use storage_config::checksum::{arr_to_u32, crc32, u32_to_arr};
use storage_config::config::Config;
use storage_config::error::Error;
use storage_config::storage_parameters::StorageParameters;

fn params(segment_size: usize, use_compression: bool, version: (usize, usize)) -> StorageParameters {
    StorageParameters { segment_size, use_compression, version }
}

#[test]
fn serialize_exact_bytes() {
    let p = params(524288, false, (0, 1));
    let bytes = p.serialize();
    assert_eq!(
        bytes,
        b"segment_size: 524288\nuse_compression: false\nversion: 0.1\n".to_vec()
    );
}

#[test]
fn serialize_exact_bytes_compressed() {
    let p = params(256, true, (12, 34));
    let bytes = p.serialize();
    assert_eq!(
        bytes,
        b"segment_size: 256\nuse_compression: true\nversion: 12.34\n".to_vec()
    );
}

#[test]
fn round_trip_all_fields() {
    let cases = [
        params(0, false, (0, 0)),
        params(1, true, (1, 9)),
        params(524288, false, (0, 34)),
        params(16777216, true, (7, 123456)),
        params(usize::MAX, false, (usize::MAX, 1)),
    ];
    for p in cases {
        let bytes = p.serialize();
        let back = StorageParameters::deserialize(&bytes).expect("round trip must parse");
        assert_eq!(back, p);
    }
}

#[test]
fn deserialize_accepts_plus_and_repeated_keys() {
    // `usize::from_str` accepts a leading plus, and a later line wins
    // over an earlier one for the same key.
    let text = b"segment_size: 512\nuse_compression: false\nversion: +3.4\nsegment_size: +1024\n";
    let p = StorageParameters::deserialize(text).expect("must parse");
    assert_eq!(p, params(1024, false, (3, 4)));
}

#[test]
fn deserialize_ignores_unknown_keys_and_extra_fields() {
    let text = b"color: blue\nsegment_size: 512: again\nuse_compression: true\nversion: 1.2.3\n";
    let p = StorageParameters::deserialize(text).expect("must parse");
    // The value stops at the next separator; a third dotted part is
    // ignored.
    assert_eq!(p, params(512, true, (1, 2)));
}

#[test]
fn deserialize_strips_carriage_returns_before_newlines() {
    let text = b"segment_size: 512\r\nuse_compression: true\r\nversion: 1.2\r\n";
    let p = StorageParameters::deserialize(text).expect("CRLF endings must parse");
    assert_eq!(p, params(512, true, (1, 2)));
}

#[test]
fn deserialize_missing_key_is_corruption() {
    let text = b"segment_size: 512\nuse_compression: true\n";
    assert!(matches!(
        StorageParameters::deserialize(text),
        Err(Error::Corruption)
    ));
}

#[test]
fn deserialize_bad_value_is_corruption() {
    for text in [
        b"segment_size: big\nuse_compression: true\nversion: 1.2\n".as_slice(),
        b"segment_size: 512\nuse_compression: yes\nversion: 1.2\n".as_slice(),
        b"segment_size: 512\nuse_compression: true\nversion: 12\n".as_slice(),
        b"segment_size: 512\nuse_compression: true\nversion: .2\n".as_slice(),
        b"no separator here\n".as_slice(),
        b"segment_size: 99999999999999999999999999\nuse_compression: true\nversion: 1.2\n"
            .as_slice(),
    ] {
        assert!(matches!(
            StorageParameters::deserialize(text),
            Err(Error::Corruption)
        ));
    }
}

#[test]
fn deserialize_non_utf8_is_unsupported() {
    let text = b"segment_size: 5\x80\x81\nuse_compression: true\nversion: 1.2\n";
    match StorageParameters::deserialize(text) {
        Err(Error::Unsupported(msg)) => assert!(msg.contains("0.29")),
        other => panic!("expected the pre-0.29 error, got {:?}", other),
    }
}

#[test]
fn read_protocol_missing_and_short_files_mean_no_prior_config() {
    assert!(matches!(Config::read_config_from(None), Ok(None)));
    assert!(matches!(Config::read_config_from(Some(b"".as_slice())), Ok(None)));
    assert!(matches!(
        Config::read_config_from(Some(b"12345678".as_slice())),
        Ok(None)
    ));
}

#[test]
fn read_protocol_parses_payload_without_checksum_bytes() {
    let p = params(1024, false, (0, 1));
    let mut contents = p.serialize();
    let crc = crc32(&contents);
    contents.extend_from_slice(&u32_to_arr(crc));
    let read = Config::read_config_from(Some(&contents)).expect("read must succeed");
    assert_eq!(read, Some(p));
    assert!(Config::checksum_matches(&contents));
}

#[test]
fn read_protocol_is_lenient_about_a_wrong_checksum() {
    // A record whose trailing checksum does not match is still parsed
    // and its values returned.
    let p = params(2048, true, (0, 1));
    let mut contents = p.serialize();
    contents.extend_from_slice(&[0xde, 0xad, 0xbe, 0xef]);
    assert!(!Config::checksum_matches(&contents));
    let read = Config::read_config_from(Some(&contents)).expect("read must still succeed");
    assert_eq!(read, Some(p));
}

#[test]
fn read_protocol_propagates_parse_errors() {
    let mut contents = b"segment_size: what\nuse_compression: true\nversion: 1.2\n".to_vec();
    contents.extend_from_slice(&[0, 0, 0, 0]);
    assert!(matches!(
        Config::read_config_from(Some(&contents)),
        Err(Error::Corruption)
    ));
}

#[test]
fn checksum_wrapper_matches_reference_crc() {
    let payload = b"segment_size: 4096\nuse_compression: false\nversion: 0.1\n";
    let ours = crc32(payload);
    assert_eq!(ours, crc32fast::hash(payload));
    assert_eq!(u32_to_arr(ours), ours.to_le_bytes().to_vec());
}

#[test]
fn u32_encoding_round_trips() {
    for v in [0u32, 1, 0xff, 0x1234_5678, u32::MAX] {
        let arr = u32_to_arr(v);
        assert_eq!(arr, v.to_le_bytes().to_vec());
        assert_eq!(arr_to_u32(&arr), v);
    }
}
