//! Concrete checks of the library's round-trip and fail-closed laws, which
//! are proved in general inside the library.
use tlv_codec::error::Error;
use tlv_codec::packet::{Packet, PacketType};
use tlv_codec::taxonomy::TlvType;
use tlv_codec::tlv::{Tlv, TlvValue};

fn round_trips(tlv: &Tlv) {
    let mut storage: Vec<u8> = vec![];
    tlv.to_raw(&mut storage).unwrap();
    let mut position = 0;
    let decoded = Tlv::from_raw(&storage, &mut position).unwrap();
    assert_eq!(&decoded, tlv);
    assert_eq!(position, storage.len());
}

#[test]
fn scalar_nodes_round_trip() {
    round_trips(&Tlv::new(TlvType::Bool, TlvValue::Bool(true)));
    round_trips(&Tlv::new(TlvType::Bool, TlvValue::Bool(false)));
    round_trips(&Tlv::new(TlvType::ChannelId, TlvValue::UInt(0)));
    round_trips(&Tlv::new(TlvType::ChannelId, TlvValue::UInt(1)));
    round_trips(&Tlv::new(TlvType::ChannelId, TlvValue::UInt(u32::MAX)));
    round_trips(&Tlv::new(
        TlvType::StdapiMountSpaceFree,
        TlvValue::ULongInt(0),
    ));
    round_trips(&Tlv::new(
        TlvType::StdapiMountSpaceFree,
        TlvValue::ULongInt(u64::MAX),
    ));
    round_trips(&Tlv::new(TlvType::ChannelType, TlvValue::Str("".to_owned())));
    round_trips(&Tlv::new(
        TlvType::ChannelType,
        TlvValue::Str("héllo ⚡ wörld".to_owned()),
    ));
    round_trips(&Tlv::new(TlvType::ChannelData, TlvValue::Bytes(vec![])));
    round_trips(&Tlv::new(
        TlvType::ChannelData,
        TlvValue::Bytes(vec![0, 255, 1, 128]),
    ));
    round_trips(&Tlv::new(
        TlvType::StdapiStatBuf,
        TlvValue::Bytes(vec![9, 9, 9]),
    ));
}

#[test]
fn group_round_trips_preserving_order_and_duplicates() {
    let mut group = Tlv {
        tlv_type: TlvType::TransGroup,
        value: None,
        tlvs: Vec::new(),
    };
    group.add_uint32(TlvType::TransType, 1).unwrap();
    group
        .add_string(TlvType::TransUrl, "tcp://first".to_owned())
        .unwrap();
    group.add_uint32(TlvType::TransType, 2).unwrap();
    group.add_bool(TlvType::Bool, true).unwrap();
    group
        .add_bytes(TlvType::TransCertHash, vec![1, 2, 3])
        .unwrap();
    group.add_group(TlvType::StdapiNetworkRoute).unwrap();
    group
        .add_string(TlvType::TransUrl, "tcp://second".to_owned())
        .unwrap();
    // a nested group with its own children
    let mut nested = Tlv {
        tlv_type: TlvType::StdapiArpEntry,
        value: None,
        tlvs: Vec::new(),
    };
    nested
        .add_bytes(TlvType::StdapiIp, vec![10, 0, 0, 1])
        .unwrap();
    nested
        .add_string(TlvType::StdapiMacName, "eth0".to_owned())
        .unwrap();
    group.add_tlv(nested).unwrap();

    let mut storage: Vec<u8> = vec![];
    group.to_raw(&mut storage).unwrap();
    let mut position = 0;
    let decoded = Tlv::from_raw(&storage, &mut position).unwrap();

    assert_eq!(decoded, group);
    assert_eq!(decoded.tlvs.len(), 8);
    assert_eq!(
        decoded
            .tlvs
            .iter()
            .filter(|c| c.tlv_type == TlvType::TransType)
            .count(),
        2
    );
    // order of the repeated field is kept
    assert_eq!(decoded.tlvs[0].value_as_uint32().unwrap(), 1);
    assert_eq!(decoded.tlvs[2].value_as_uint32().unwrap(), 2);
    assert_eq!(
        decoded.tlvs[6].value_as_string().unwrap(),
        "tcp://second"
    );
}

#[test]
fn envelope_round_trips_with_header_recovery() {
    let request = Packet::new(String::from("core_enumextcmd"));
    let mut packet = request.create_response().unwrap();
    packet.add_bool(TlvType::StdapiProxyCfgAutodetect, false);
    packet.add_uint32(TlvType::ChannelId, 77);
    packet.add_uint64(TlvType::StdapiMountSpaceTotal, 1 << 40);
    packet.add_string(TlvType::ChannelType, "pipe".to_owned());
    packet.add_bytes(TlvType::SessionGuid, vec![1, 2, 3, 4]);

    let session_guid: [u8; 16] = [
        1, 2, 3, 4, 5, 6, 7, 8, 9, 10, 11, 12, 13, 14, 15, 16,
    ];
    let raw = packet.to_raw(&session_guid).unwrap();

    let mut position = 0;
    let (decoded, guid) = Packet::from_raw(&raw, &mut position).unwrap();

    assert_eq!(decoded.packet_type, packet.packet_type);
    assert_eq!(decoded.tlvs, packet.tlvs);
    assert_eq!(guid.as_slice(), session_guid);
    assert_eq!(position, raw.len());
}

#[test]
fn xor_twice_restores_buffer() {
    let mut data: Vec<u8> = (0u8..=255).collect();
    let original = data.clone();
    let key = [0xde, 0xad, 0xbe, 0xef];
    Packet::xor(&mut data, key);
    assert_ne!(data, original);
    Packet::xor(&mut data, key);
    assert_eq!(data, original);
}

#[test]
fn three_records() {
    // response derivation for a close request with a pinned identifier
    let mut request = Packet::new(String::from("core_channel_close"));
    request.set_request_id("0123456789abcdef0123456789abcdef".to_owned());
    let response = request.create_response().unwrap();
    assert_eq!(response.get_method().unwrap(), "core_channel_close");
    assert_eq!(
        response.get_request_id().unwrap(),
        "0123456789abcdef0123456789abcdef"
    );
    // no other fields are populated
    assert_eq!(response.tlvs.len(), 2);
}

#[test]
fn encrypted_packet_is_rejected() {
    // a buffer with a zero key is un-obfuscated; its encryption flag is 1
    let mut raw: Vec<u8> = vec![];
    raw.extend([0, 0, 0, 0]); // xor key slot
    raw.extend([0u8; 16]); // session guid
    raw.extend([0, 0, 0, 1]); // encryption flag: unsupported
    raw.extend([0, 0, 0, 8]); // body length
    raw.extend([0, 0, 0, 0]); // packet kind: request
    let mut position = 0;
    assert_eq!(
        Packet::from_raw(&raw, &mut position),
        Err(Error::UnsupportedFeature)
    );
}

#[test]
fn truncated_envelope_is_rejected() {
    let raw: Vec<u8> = vec![0; 31];
    let mut position = 0;
    assert_eq!(
        Packet::from_raw(&raw, &mut position),
        Err(Error::Truncated)
    );
}

#[test]
fn unknown_packet_kind_is_rejected() {
    let mut raw: Vec<u8> = vec![];
    raw.extend([0, 0, 0, 0]);
    raw.extend([0u8; 16]);
    raw.extend([0, 0, 0, 0]);
    raw.extend([0, 0, 0, 8]);
    raw.extend([0, 0, 0, 99]); // no such packet kind
    let mut position = 0;
    assert_eq!(
        Packet::from_raw(&raw, &mut position),
        Err(Error::UnknownPacketKind)
    );
}

#[test]
fn string_field_length_accounting() {
    let tlv = Tlv::new(TlvType::ChannelType, TlvValue::Str("hi".to_owned()));
    let mut storage: Vec<u8> = vec![];
    tlv.to_raw(&mut storage).unwrap();
    // declared length 11 = 2 characters + 1 NUL + 8 header bytes
    assert_eq!(storage, vec![0, 0, 0, 11, 0, 1, 0, 51, 104, 105, 0]);
}
