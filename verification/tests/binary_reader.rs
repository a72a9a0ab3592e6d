use tlv_codec::binary_reader::BinaryReader;
use tlv_codec::error::Error;

#[test]
fn test_read_bool() {
    let storage: Vec<u8> = vec![1];
    let mut position = 0;
    let data = BinaryReader::read_bool(&storage, &mut position).unwrap();
    assert_eq!(data, true);
}

#[test]
fn test_read_dword() {
    let storage: Vec<u8> = vec![0, 0, 1, 2];
    let mut position = 0;
    let data = BinaryReader::read_dword(&storage, &mut position).unwrap();
    assert_eq!(data, 258);
}

#[test]
fn test_read_qword() {
    let storage: Vec<u8> = vec![0, 0, 0, 0, 0, 0, 255, 255];
    let mut position = 0;
    let data = BinaryReader::read_qword(&storage, &mut position).unwrap();
    assert_eq!(data, 65535);
}

#[test]
fn test_read_string() {
    let storage: Vec<u8> = vec![104, 101, 108, 108, 111, 0];
    let mut position = 0;
    let data = BinaryReader::read_string(&storage, &mut position, 6).unwrap();
    assert_eq!(data, "hello");
}

#[test]
fn test_read_bytes() {
    let storage: Vec<u8> = vec![8, 9, 6, 5];
    let mut position = 0;
    let data = BinaryReader::read_bytes(&storage, &mut position, 4).unwrap();
    assert!(data == [8, 9, 6, 5]);
}

#[test]
fn read_string_decodes_multibyte_utf8() {
    // "héllo" in UTF-8 is 6 bytes; the declared length includes the NUL.
    let storage: Vec<u8> = vec![104, 0xc3, 0xa9, 108, 108, 111, 0];
    let mut position = 0;
    let data = BinaryReader::read_string(&storage, &mut position, 7).unwrap();
    assert_eq!(data, "héllo");
    assert_eq!(position, 7);
}

#[test]
fn read_string_rejects_invalid_utf8() {
    let storage: Vec<u8> = vec![0xff, 0xfe, 0];
    let mut position = 0;
    let r = BinaryReader::read_string(&storage, &mut position, 3);
    assert_eq!(r, Err(Error::InvalidUtf8));
    assert_eq!(position, 0);
}

#[test]
fn read_past_end_is_truncated() {
    let storage: Vec<u8> = vec![1, 2, 3];
    let mut position = 0;
    assert_eq!(
        BinaryReader::read_dword(&storage, &mut position),
        Err(Error::Truncated)
    );
    assert_eq!(
        BinaryReader::read_qword(&storage, &mut position),
        Err(Error::Truncated)
    );
    assert_eq!(
        BinaryReader::read_bytes(&storage, &mut position, 4),
        Err(Error::Truncated)
    );
    assert_eq!(position, 0);
}

#[test]
fn read_bool_is_nonzero_truthy() {
    let storage: Vec<u8> = vec![7, 0];
    let mut position = 0;
    assert_eq!(BinaryReader::read_bool(&storage, &mut position), Ok(true));
    assert_eq!(BinaryReader::read_bool(&storage, &mut position), Ok(false));
}

#[test]
fn read_tlv_type_rejects_unknown_value() {
    let storage: Vec<u8> = vec![0x12, 0x34, 0x56, 0x78];
    let mut position = 0;
    assert_eq!(
        BinaryReader::read_tlv_type(&storage, &mut position),
        Err(Error::UnknownFieldId)
    );
}

#[test]
fn read_packet_type_rejects_unknown_value() {
    let storage: Vec<u8> = vec![0, 0, 0, 99];
    let mut position = 0;
    assert_eq!(
        BinaryReader::read_packet_type(&storage, &mut position),
        Err(Error::UnknownPacketKind)
    );
}
