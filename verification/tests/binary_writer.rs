use tlv_codec::binary_writer::BinaryWriter;
use tlv_codec::packet::PacketType;
use tlv_codec::taxonomy::TlvType;

#[test]
fn test_write_bool() {
    let mut storage: Vec<u8> = vec![];
    BinaryWriter::write_bool(&mut storage, true);
    assert_eq!(storage.len(), 1);
    assert_eq!(storage[0], 1);
}

#[test]
fn test_write_dword() {
    let mut storage: Vec<u8> = vec![];
    BinaryWriter::write_dword(&mut storage, 258);
    assert_eq!(storage.len(), 4);
    assert!(storage == [0, 0, 1, 2]);
}

#[test]
fn test_write_qword() {
    let mut storage: Vec<u8> = vec![];
    BinaryWriter::write_qword(&mut storage, 65535);
    assert_eq!(storage.len(), 8);
    assert!(storage == [0, 0, 0, 0, 0, 0, 255, 255]);
}

#[test]
fn test_write_string() {
    let mut storage: Vec<u8> = vec![];
    BinaryWriter::write_string(&mut storage, String::from("hello"));
    assert_eq!(storage.len(), 6);
    assert!(storage == [104, 101, 108, 108, 111, 0]);
}

#[test]
fn test_write_bytes() {
    let mut storage: Vec<u8> = vec![];
    BinaryWriter::write_bytes(&mut storage, &[8, 9, 6, 5]);
    assert!(storage == [8, 9, 6, 5]);
}

#[test]
fn write_packet_type_writes_wire_value() {
    let mut storage: Vec<u8> = vec![];
    BinaryWriter::write_packet_type(&mut storage, PacketType::PlainResponse);
    assert!(storage == [0, 0, 0, 11]);
}

#[test]
fn write_tlv_type_writes_wire_value() {
    let mut storage: Vec<u8> = vec![];
    BinaryWriter::write_tlv_type(&mut storage, TlvType::ChannelType);
    assert!(storage == [0, 1, 0, 51]);
}
