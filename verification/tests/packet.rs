use tlv_codec::error::Error;
use tlv_codec::packet::{Packet, PacketResult, PacketType};
use tlv_codec::taxonomy::TlvType;
use tlv_codec::tlv::TlvValue;

#[test]
fn test_empty_packet() {
    let packet = Packet::new(String::from("core_channel_close"));
    assert!(packet.get_tlv(TlvType::Method).is_some());
    assert!(packet.get_tlv(TlvType::RequestId).is_some());
    assert_eq!(packet.get_method().unwrap(), "core_channel_close");
}

#[test]
fn packet_test_add() {
    let mut packet = Packet::new(String::from("core_channel_open"));
    packet.add_string(TlvType::ChannelType, String::from("unidirectional"));
    packet.add_uint32(TlvType::ChannelId, 2);
    packet.add_bytes(TlvType::ChannelData, vec![3, 5, 8, 9]);

    assert_eq!(
        packet
            .get_tlv(TlvType::ChannelType)
            .unwrap()
            .value_as_string()
            .unwrap(),
        "unidirectional"
    );
    assert_eq!(
        packet
            .get_tlv(TlvType::ChannelId)
            .unwrap()
            .value_as_uint32()
            .unwrap(),
        2
    );
    assert_eq!(
        packet
            .get_tlv(TlvType::ChannelData)
            .unwrap()
            .value_as_bytes()
            .unwrap()
            .as_slice(),
        [3, 5, 8, 9]
    );
}

#[test]
fn test_create_response() {
    let request_packet = Packet::new(String::from("core_channel_open"));
    let response_packet = request_packet.create_response().unwrap();

    assert_eq!(
        response_packet.get_request_id().unwrap(),
        request_packet.get_request_id().unwrap()
    );
    assert_eq!(
        response_packet.get_method().unwrap(),
        request_packet.get_method().unwrap()
    );
    assert_eq!(response_packet.packet_type, PacketType::Response);
}

#[test]
fn test_packet_to_raw() {
    let request_packet = Packet::new(String::from("core_channel_open"));
    let mut response_packet = request_packet.create_response().unwrap();
    response_packet.add_bool(TlvType::StdapiProxyCfgAutodetect, true);
    response_packet.add_uint32(TlvType::ChannelId, 2);
    response_packet.add_uint64(TlvType::StdapiMountSpaceFree, 65535);
    response_packet.add_string(TlvType::ChannelType, "duplex".to_owned());

    let session_guid = [0; 16];
    let mut raw_data = response_packet.to_raw(&session_guid).unwrap();

    println!("before decryption: {:?}", raw_data);
    let xor_key = raw_data[0..4].try_into().unwrap();
    Packet::xor(&mut raw_data, xor_key);

    println!("after decryption: {:?}", raw_data);

    assert_eq!(raw_data[0..4], [0; 4]); // xor key xored with itself
    assert_eq!(raw_data[4..20], [0; 16]); // session guid
    assert_eq!(raw_data[20..24], [0; 4]); // encryption flag
    assert_eq!(raw_data[28..32], [0, 0, 0, 1]) // packet type - response = 1
}

#[test]
fn test_from_raw_to_packet() {
    let request_packet = Packet::new(String::from("core_channel_open"));
    let mut response_packet = request_packet.create_response().unwrap();
    response_packet.add_bool(TlvType::StdapiProxyCfgAutodetect, true);
    response_packet.add_uint32(TlvType::ChannelId, 2);
    response_packet.add_uint64(TlvType::StdapiMountSpaceFree, 65535);
    response_packet.add_string(TlvType::ChannelType, "duplex".to_owned());

    let session_guid = [0; 16];
    let raw_data = response_packet.to_raw(&session_guid).unwrap();

    let mut position = 0;
    let (packet, _guid) = Packet::from_raw(&raw_data, &mut position).unwrap();

    assert_eq!(packet.packet_type, PacketType::Response);
    assert_eq!(
        packet
            .get_tlv(TlvType::StdapiProxyCfgAutodetect)
            .unwrap()
            .value
            .as_ref()
            .unwrap(),
        &TlvValue::Bool(true)
    );

    assert_eq!(
        packet
            .get_tlv(TlvType::ChannelId)
            .unwrap()
            .value
            .as_ref()
            .unwrap(),
        &TlvValue::UInt(2)
    );

    assert_eq!(
        packet
            .get_tlv(TlvType::StdapiMountSpaceFree)
            .unwrap()
            .value
            .as_ref()
            .unwrap(),
        &TlvValue::ULongInt(65535)
    );

    assert_eq!(
        packet
            .get_tlv(TlvType::ChannelType)
            .unwrap()
            .value
            .as_ref()
            .unwrap(),
        &TlvValue::Str("duplex".to_string())
    );
}

#[test]
fn request_id_is_32_hex_characters() {
    let packet = Packet::new(String::from("core_machine_id"));
    let rid = packet.get_request_id().unwrap();
    assert_eq!(rid.len(), 32);
    assert!(rid.chars().all(|c| c.is_ascii_hexdigit()));
    // a second request draws a fresh identifier
    let other = Packet::new(String::from("core_machine_id"));
    assert_ne!(other.get_request_id().unwrap(), rid);
}

#[test]
fn set_result_then_get_result() {
    let mut packet = Packet::new(String::from("core_channel_open"));
    let mut response = packet.create_response().unwrap();
    response.set_result(PacketResult::ErrorAlreadyExists);
    assert_eq!(
        response.get_result().unwrap(),
        PacketResult::ErrorAlreadyExists
    );
    response.set_result(PacketResult::Success);
    assert_eq!(response.get_result().unwrap(), PacketResult::Success);
    // replacing keeps exactly one result field
    assert_eq!(
        response
            .tlvs
            .iter()
            .filter(|t| t.tlv_type == TlvType::ResultCode)
            .count(),
        1
    );
    packet.set_result(PacketResult::BadArguments);
    assert_eq!(packet.get_result().unwrap(), PacketResult::BadArguments);
}

#[test]
fn get_result_rejects_unknown_code() {
    let mut packet = Packet::new(String::from("core_channel_open"));
    packet.add_uint32(TlvType::ResultCode, 9999);
    assert_eq!(packet.get_result(), Err(Error::UnknownResultCode));
}

#[test]
fn missing_fields_are_reported() {
    let empty = Packet {
        packet_type: PacketType::PlainRequest,
        tlvs: Vec::new(),
    };
    assert_eq!(empty.get_method(), Err(Error::MissingField));
    assert_eq!(empty.get_request_id(), Err(Error::MissingField));
    assert_eq!(empty.get_result(), Err(Error::MissingField));
    assert!(empty.create_response().is_err());
}

#[test]
fn plain_request_derives_plain_response() {
    let mut packet = Packet::new(String::from("core_loadlib"));
    packet.packet_type = PacketType::PlainRequest;
    let response = packet.create_response().unwrap();
    assert_eq!(response.packet_type, PacketType::PlainResponse);
}
