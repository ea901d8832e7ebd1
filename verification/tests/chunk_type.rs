use pngme::chunk_type::ChunkType;
use pngme::chunk_type::ChunkTypeError;
use pngme::chunk_type::Type;

#[test]
pub fn test_chunk_type_from_bytes() {
    let expected = [82, 117, 83, 116];
    let actual = ChunkType::try_from([82, 117, 83, 116]).unwrap();

    assert_eq!(expected, actual.bytes());
}

#[test]
pub fn test_chunk_type_from_str() {
    let expected = ChunkType::try_from([82, 117, 83, 116]).unwrap();
    let actual = ChunkType::from_str("RuSt").unwrap();
    assert_eq!(expected, actual);
}

#[test]
pub fn test_chunk_type_is_safe_to_copy() {
    let chunk = ChunkType::from_str("RuSt").unwrap();
    assert!(chunk.is_safe_to_copy());
}

#[test]
pub fn test_chunk_type_is_unsafe_to_copy() {
    let chunk = ChunkType::from_str("RuST").unwrap();
    assert!(!chunk.is_safe_to_copy());
}

#[test]
pub fn test_valid_chunk_is_valid() {
    let chunk = ChunkType::from_str("RuSt").unwrap();
    assert!(chunk.is_valid());
}

#[test]
pub fn test_invalid_chunk_is_valid() {
    let chunk = ChunkType::from_str("Rust").unwrap();
    assert!(!chunk.is_valid());

    let chunk = ChunkType::from_str("Ru1t");
    assert!(chunk.is_err());
}

#[test]
pub fn test_chunk_type_string() {
    let chunk = ChunkType::from_str("RuSt").unwrap();
    assert_eq!(&chunk.to_text(), "RuSt");
}

#[test]
pub fn test_chunk_type_trait_impls() {
    let chunk_type_1: ChunkType = ChunkType::try_from([82, 117, 83, 116]).unwrap();
    let chunk_type_2: ChunkType = ChunkType::from_str("RuSt").unwrap();
    let _chunk_string = chunk_type_1.to_text();
    let _are_chunks_equal = chunk_type_1 == chunk_type_2;
}

#[test]
pub fn test_text_round_trip() {
    for s in ["RuSt", "AbCd", "IDAT", "IEND", "tEXt", "zzZz", "QQQQ", "aaaa"] {
        let chunk = ChunkType::from_str(s).unwrap();
        assert_eq!(chunk.to_text(), s);
    }
}

#[test]
pub fn test_byte_round_trip() {
    for b in [[82, 117, 83, 116], [65, 90, 97, 122], [73, 68, 65, 84]] {
        let chunk = ChunkType::try_from(b).unwrap();
        assert_eq!(chunk.bytes(), b);
    }
}

#[test]
pub fn test_from_bytes_accepts_any_bytes() {
    let chunk = ChunkType::try_from([0, 49, 33, 255]).unwrap();
    assert_eq!(chunk.bytes(), [0, 49, 33, 255]);
    assert!(!chunk.is_valid());
}

#[test]
pub fn test_from_str_rejects_wrong_length() {
    assert!(ChunkType::from_str("").is_err());
    assert!(ChunkType::from_str("Ru").is_err());
    assert!(ChunkType::from_str("RuS").is_err());
    assert!(ChunkType::from_str("RuStX").is_err());
}

#[test]
pub fn test_from_str_rejects_non_letters() {
    assert!(ChunkType::from_str("Ru1t").is_err());
    assert!(ChunkType::from_str("Ru!t").is_err());
    assert!(ChunkType::from_str("Ru t").is_err());
    assert!(ChunkType::from_str("Ru\u{20ac}t").is_err());
}

#[test]
pub fn test_from_str_error_kind() {
    assert_eq!(
        ChunkType::from_str("Ru1t").unwrap_err(),
        ChunkTypeError::InvalidTypeCode
    );
    assert_eq!(
        ChunkType::from_str("Rusty").unwrap_err(),
        ChunkTypeError::InvalidTypeCode
    );
}

#[test]
pub fn test_reserved_bit_decides_validity() {
    // All four bytes are letters in both; only the case of the third differs.
    let valid = ChunkType::from_str("RuSt").unwrap();
    assert!(valid.is_valid());
    assert!(valid.is_reserved_bit_valid());

    let invalid = ChunkType::from_str("Rust").unwrap();
    assert!(!invalid.is_valid());
    assert!(!invalid.is_reserved_bit_valid());
}

#[test]
pub fn test_chunk_type_is_critical() {
    let chunk = ChunkType::from_str("RuSt").unwrap();
    assert!(chunk.is_critical());

    let chunk = ChunkType::from_str("ruSt").unwrap();
    assert!(!chunk.is_critical());
}

#[test]
pub fn test_chunk_type_is_public() {
    let chunk = ChunkType::from_str("RUSt").unwrap();
    assert!(chunk.is_public());

    let chunk = ChunkType::from_str("RuSt").unwrap();
    assert!(!chunk.is_public());
}

#[test]
pub fn test_is_valid_byte() {
    assert!(ChunkType::is_valid_byte(65));
    assert!(ChunkType::is_valid_byte(90));
    assert!(ChunkType::is_valid_byte(97));
    assert!(ChunkType::is_valid_byte(122));
    assert!(!ChunkType::is_valid_byte(64));
    assert!(!ChunkType::is_valid_byte(91));
    assert!(!ChunkType::is_valid_byte(96));
    assert!(!ChunkType::is_valid_byte(123));
    assert!(!ChunkType::is_valid_byte(0));
    assert!(!ChunkType::is_valid_byte(255));
}

#[test]
pub fn test_equality_by_bytes() {
    let from_bytes = ChunkType::try_from([82, 117, 83, 116]).unwrap();
    let from_text = ChunkType::from_str("RuSt").unwrap();
    assert_eq!(from_bytes, from_text);

    let other = ChunkType::from_str("RuST").unwrap();
    assert_ne!(from_bytes, other);
}

#[test]
pub fn test_accessors_are_deterministic() {
    let chunk = ChunkType::from_str("RuSt").unwrap();
    assert_eq!(chunk.bytes(), chunk.bytes());
    assert_eq!(chunk.is_valid(), chunk.is_valid());
    assert_eq!(chunk.is_safe_to_copy(), chunk.is_safe_to_copy());
    assert_eq!(chunk.is_critical(), chunk.is_critical());
    assert_eq!(chunk.is_public(), chunk.is_public());
    assert_eq!(chunk.is_reserved_bit_valid(), chunk.is_reserved_bit_valid());
    assert_eq!(chunk.to_text(), chunk.to_text());
}

#[test]
pub fn test_role_table() {
    assert_eq!(Type::Ancillary.position(), 0);
    assert_eq!(Type::Private.position(), 1);
    assert_eq!(Type::Reserved.position(), 2);
    assert_eq!(Type::SafeToCopy.position(), 3);

    assert_eq!(Type::Ancillary.valid_bit(), 0);
    assert_eq!(Type::Private.valid_bit(), 1);
    assert_eq!(Type::Reserved.valid_bit(), 0);
    assert_eq!(Type::SafeToCopy.valid_bit(), 1);
}
