//! Wire-level tests: varints, framing, the message schema and the
//! configuration surface.

use finality_requests::config::Config;
use finality_requests::framing::{read_one, write_one, FramingError};
use finality_requests::schema::{
    decode_request, decode_response, encode_request, encode_response, FinalityProofRequest,
    FinalityProofResponse,
};
use finality_requests::types::BlockHash;
use finality_requests::varint::{decode_varint, encode_varint};

fn varint_bytes(n: u64) -> Vec<u8> {
    let mut out = Vec::new();
    encode_varint(n, &mut out);
    out
}

#[test]
fn varint_round_trip_values() {
    for n in [0u64, 1, 127, 128, 129, 300, 16_383, 16_384, 1_048_576, u64::MAX] {
        let bytes = varint_bytes(n);
        let (value, used) = decode_varint(&bytes, 0).expect("decodes");
        assert_eq!(value, n);
        assert_eq!(used, bytes.len());
    }
}

#[test]
fn varint_known_encodings() {
    assert_eq!(varint_bytes(0), vec![0x00]);
    assert_eq!(varint_bytes(127), vec![0x7F]);
    assert_eq!(varint_bytes(128), vec![0x80, 0x01]);
    assert_eq!(varint_bytes(300), vec![0xAC, 0x02]);
    assert_eq!(varint_bytes(1_048_576), vec![0x80, 0x80, 0x40]);
}

#[test]
fn varint_rejects_unterminated_input() {
    let bytes = vec![0x80];
    assert_eq!(decode_varint(&bytes, 0), None);
}

#[test]
fn varint_rejects_value_overflow() {
    // Eleven continuation groups denote at least 2^70: out of range.
    let bytes = vec![0xFF, 0xFF, 0xFF, 0xFF, 0xFF, 0xFF, 0xFF, 0xFF, 0xFF, 0xFF, 0x01];
    assert_eq!(decode_varint(&bytes, 0), None);
}

#[test]
fn framing_round_trip() {
    let msg = vec![1u8, 2, 3, 4, 5];
    let framed = write_one(&msg);
    assert_eq!(framed, vec![5u8, 1, 2, 3, 4, 5]);
    assert_eq!(read_one(&framed, 1024), Ok(msg));
}

#[test]
fn framing_round_trip_empty_message() {
    let framed = write_one(&Vec::new());
    assert_eq!(framed, vec![0u8]);
    assert_eq!(read_one(&framed, 0), Ok(Vec::new()));
}

#[test]
fn framing_limit_aborts_oversized_read() {
    let msg = vec![7u8; 5];
    let framed = write_one(&msg);
    assert_eq!(
        read_one(&framed, 4),
        Err(FramingError::TooLarge { requested: 5, max: 4 })
    );
}

#[test]
fn framing_rejects_truncated_payload() {
    // Declares five bytes, carries two.
    let framed = vec![5u8, 1, 2];
    assert_eq!(read_one(&framed, 1024), Err(FramingError::Truncated));
}

#[test]
fn framing_rejects_bad_length_indicator() {
    let framed = vec![0x80u8];
    assert_eq!(read_one(&framed, 1024), Err(FramingError::BadLength));
}

#[test]
fn framing_ignores_trailing_bytes() {
    // A stream reader takes one message and leaves the rest unread.
    let framed = vec![2u8, 10, 20, 99, 99];
    assert_eq!(read_one(&framed, 1024), Ok(vec![10, 20]));
}

#[test]
fn request_known_encoding() {
    let m = FinalityProofRequest { block_hash: vec![0xAA], request: vec![0xBB, 0xCC] };
    assert_eq!(encode_request(&m), vec![0x0A, 0x01, 0xAA, 0x12, 0x02, 0xBB, 0xCC]);
}

#[test]
fn request_empty_fields_are_left_out() {
    let both = FinalityProofRequest { block_hash: Vec::new(), request: Vec::new() };
    assert_eq!(encode_request(&both), Vec::<u8>::new());
    let no_hash = FinalityProofRequest { block_hash: Vec::new(), request: vec![0xBB] };
    assert_eq!(encode_request(&no_hash), vec![0x12, 0x01, 0xBB]);
    let no_request = FinalityProofRequest { block_hash: vec![0xAA], request: Vec::new() };
    assert_eq!(encode_request(&no_request), vec![0x0A, 0x01, 0xAA]);
}

#[test]
fn request_round_trip() {
    for (h, q) in [
        (Vec::new(), Vec::new()),
        (vec![1u8, 2, 3], Vec::new()),
        (Vec::new(), vec![9u8]),
        (vec![0u8; 32], vec![4u8, 5, 6, 7]),
    ] {
        let encoded = encode_request(&FinalityProofRequest {
            block_hash: h.clone(),
            request: q.clone(),
        });
        let decoded = decode_request(&encoded).expect("decodes");
        assert_eq!(decoded.block_hash, h);
        assert_eq!(decoded.request, q);
    }
}

#[test]
fn request_decoder_rejects_unknown_tag() {
    assert_eq!(decode_request(&vec![0x1A, 0x01, 0xAA]), None);
}

#[test]
fn request_decoder_rejects_truncated_field() {
    assert_eq!(decode_request(&vec![0x0A, 0x05, 0xAA]), None);
}

#[test]
fn request_decoder_takes_last_of_repeated_field() {
    let bytes = vec![0x0A, 0x01, 0x01, 0x0A, 0x01, 0x02];
    let decoded = decode_request(&bytes).expect("decodes");
    assert_eq!(decoded.block_hash, vec![0x02]);
    assert_eq!(decoded.request, Vec::<u8>::new());
}

#[test]
fn response_round_trip() {
    for p in [Vec::new(), vec![1u8, 2, 3], vec![0u8; 100]] {
        let encoded = encode_response(&FinalityProofResponse { proof_bytes: p.clone() });
        let decoded = decode_response(&encoded).expect("decodes");
        assert_eq!(decoded.proof_bytes, p);
    }
}

#[test]
fn response_known_encoding() {
    let m = FinalityProofResponse { proof_bytes: vec![1, 2, 3] };
    assert_eq!(encode_response(&m), vec![0x0A, 0x03, 1, 2, 3]);
    let empty = FinalityProofResponse { proof_bytes: Vec::new() };
    assert_eq!(encode_response(&empty), Vec::<u8>::new());
}

#[test]
fn response_decoder_rejects_request_shape() {
    // The request field tag is unknown to a response.
    assert_eq!(decode_response(&vec![0x12, 0x01, 0xBB]), None);
}

#[test]
fn config_defaults() {
    let cfg = Config::new(&b"dot".to_vec());
    assert_eq!(cfg.max_request_len(), 1024 * 1024);
    assert_eq!(cfg.max_response_len(), 1024 * 1024);
    assert_eq!(cfg.inactivity_timeout_ms(), 15_000);
    assert_eq!(cfg.protocol(), &b"/dot/finality-proof/1".to_vec());
}

#[test]
fn config_setters() {
    let mut cfg = Config::new(&b"dot".to_vec());
    cfg.set_max_request_len(512);
    cfg.set_max_response_len(256);
    cfg.set_inactivity_timeout_ms(1_000);
    cfg.set_protocol(&b"ksm".to_vec());
    assert_eq!(cfg.max_request_len(), 512);
    assert_eq!(cfg.max_response_len(), 256);
    assert_eq!(cfg.inactivity_timeout_ms(), 1_000);
    assert_eq!(cfg.protocol(), &b"/ksm/finality-proof/1".to_vec());
}

#[test]
fn block_hash_is_exactly_thirty_two_bytes() {
    assert!(BlockHash::from_bytes(vec![0u8; 32]).is_some());
    assert!(BlockHash::from_bytes(vec![0u8; 31]).is_none());
    assert!(BlockHash::from_bytes(vec![0u8; 33]).is_none());
}

#[test]
fn block_hash_serialization_round_trip() {
    let bytes: Vec<u8> = (0u8..32).collect();
    let h = BlockHash::from_bytes(bytes.clone()).unwrap();
    assert_eq!(h.encode(), bytes);
    let decoded = BlockHash::decode(&bytes).unwrap();
    assert_eq!(decoded, h);
}

#[test]
fn block_hash_decode_takes_leading_bytes() {
    let mut bytes: Vec<u8> = (0u8..32).collect();
    bytes.push(0xFF);
    let decoded = BlockHash::decode(&bytes).unwrap();
    assert_eq!(decoded.encode(), (0u8..32).collect::<Vec<u8>>());
    assert!(BlockHash::decode(&vec![0u8; 31]).is_none());
}
