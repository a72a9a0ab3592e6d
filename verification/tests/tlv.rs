use tlv_codec::error::Error;
use tlv_codec::taxonomy::{MetaType, TlvType};
use tlv_codec::tlv::{Tlv, TlvValue};

fn first_child<'a>(tlv: &'a Tlv, tlv_type: TlvType) -> &'a Tlv {
    tlv.tlvs
        .iter()
        .find(|child| child.tlv_type == tlv_type)
        .unwrap()
}

#[test]
fn test_tlvtype_to_metatype() {
    assert_eq!(TlvType::Any.to_meta_type(), MetaType::NoneKind);
    assert_eq!(TlvType::Method.to_meta_type(), MetaType::Str);
    assert_eq!(
        TlvType::StdapiMountSpaceTotal.to_meta_type(),
        MetaType::Qword
    );
}

#[test]
fn test_value_as_string() {
    let tlv = Tlv::new(
        TlvType::ChannelType,
        TlvValue::Str(String::from("OneWay")),
    );
    assert_eq!(tlv.value_as_string().unwrap(), "OneWay");
}

#[test]
fn test_value_as_uint32() {
    let tlv = Tlv::new(TlvType::ChannelId, TlvValue::UInt(2));
    assert_eq!(tlv.value_as_uint32().unwrap(), 2);
}

#[test]
fn test_value_as_uint64() {
    let tlv = Tlv::new(
        TlvType::StdapiMountSpaceFree,
        TlvValue::ULongInt(624636823236762),
    );
    assert_eq!(tlv.value_as_uint64().unwrap(), 624636823236762);
}

#[test]
fn test_value_as_bool() {
    let tlv = Tlv::new(TlvType::StdapiProxyCfgAutodetect, TlvValue::Bool(true));
    assert_eq!(tlv.value_as_bool().unwrap(), true);
}

#[test]
fn test_value_as_bytes() {
    let tlv = Tlv::new(TlvType::ChannelData, TlvValue::Bytes(vec![35, 67, 0, 255]));
    let byte_val = tlv.value_as_bytes().unwrap();
    assert_eq!(byte_val[0], 35);
    assert_eq!(byte_val[1], 67);
    assert_eq!(byte_val[2], 0);
    assert_eq!(byte_val[3], 255);
}

#[test]
fn mod_test_add() {
    let mut tlv = Tlv {
        tlv_type: TlvType::StdapiMount,
        value: None,
        tlvs: Vec::new(),
    };
    tlv.add_string(TlvType::StdapiMountName, String::from("/sdf"))
        .unwrap();
    tlv.add_uint32(TlvType::StdapiMountType, 2).unwrap();
    tlv.add_uint64(TlvType::StdapiMountSpaceFree, 2614672732)
        .unwrap();

    assert_eq!(
        first_child(&tlv, TlvType::StdapiMountName)
            .value_as_string()
            .unwrap(),
        "/sdf"
    );
    assert_eq!(
        first_child(&tlv, TlvType::StdapiMountType)
            .value_as_uint32()
            .unwrap(),
        2
    );
    assert_eq!(
        first_child(&tlv, TlvType::StdapiMountSpaceFree)
            .value_as_uint64()
            .unwrap(),
        2614672732
    );
}

#[test]
fn test_bool_tlv_to_raw() {
    let tlv = Tlv::new(TlvType::StdapiProxyCfgAutodetect, TlvValue::Bool(true));
    let mut storage: Vec<u8> = vec![];
    tlv.to_raw(&mut storage).unwrap();
    assert_eq!(storage.len(), 9);
    assert!(storage == [0, 0, 0, 9, 0, 8, 5, 165, 1]);
}

#[test]
fn test_uint_tlv_to_raw() {
    let tlv = Tlv::new(TlvType::ChannelId, TlvValue::UInt(2));
    let mut storage: Vec<u8> = vec![];
    tlv.to_raw(&mut storage).unwrap();
    assert_eq!(storage.len(), 12);
    assert!(storage == [0, 0, 0, 12, 0, 2, 0, 50, 0, 0, 0, 2]);
}

#[test]
fn test_qword_tlv_to_raw() {
    let tlv = Tlv::new(TlvType::StdapiMountSpaceFree, TlvValue::ULongInt(65535));
    let mut storage: Vec<u8> = vec![];
    tlv.to_raw(&mut storage).unwrap();
    assert_eq!(storage.len(), 16);
    assert!(storage == [0, 0, 0, 16, 0, 16, 4, 188, 0, 0, 0, 0, 0, 0, 255, 255]);
}

#[test]
fn test_string_tlv_to_raw() {
    let tlv = Tlv::new(TlvType::ChannelType, TlvValue::Str("duplex".to_owned()));
    let mut storage: Vec<u8> = vec![];
    tlv.to_raw(&mut storage).unwrap();
    assert_eq!(storage.len(), 15);
    assert!(storage == [0, 0, 0, 15, 0, 1, 0, 51, 100, 117, 112, 108, 101, 120, 0]);
}

#[test]
fn test_bytes_tlv_to_raw() {
    let tlv = Tlv::new(
        TlvType::TransCertHash,
        TlvValue::Bytes(vec![89, 77, 22, 23, 45]),
    );
    let mut storage: Vec<u8> = vec![];
    tlv.to_raw(&mut storage).unwrap();
    assert_eq!(storage.len(), 13);
    assert!(storage == [0, 0, 0, 13, 0, 4, 1, 179, 89, 77, 22, 23, 45]);
}

#[test]
fn reserved_kind_to_raw_fails_closed() {
    let tlv = Tlv::new(TlvType::Any, TlvValue::Bool(false));
    let mut storage: Vec<u8> = vec![];
    assert_eq!(tlv.to_raw(&mut storage), Err(Error::UnsupportedFeature));
    assert!(storage.is_empty());
}

#[test]
fn mismatched_value_to_raw_fails() {
    let tlv = Tlv::new(TlvType::ChannelId, TlvValue::Str("two".to_owned()));
    let mut storage: Vec<u8> = vec![];
    assert_eq!(tlv.to_raw(&mut storage), Err(Error::TypeMismatch));
    assert!(storage.is_empty());
}

#[test]
fn group_without_value_to_raw() {
    let group = Tlv {
        tlv_type: TlvType::ChannelDataGroup,
        value: None,
        tlvs: Vec::new(),
    };
    let mut storage: Vec<u8> = vec![];
    group.to_raw(&mut storage).unwrap();
    // an empty group is just the 8-byte header declaring length 8
    assert!(storage == [0, 0, 0, 8, 64, 0, 0, 53]);
}

#[test]
fn test_from_raw_to_bool_tlv() {
    let tlv = Tlv::new(TlvType::StdapiProxyCfgAutodetect, TlvValue::Bool(true));
    let mut storage: Vec<u8> = vec![];
    tlv.to_raw(&mut storage).unwrap();

    let mut position = 0;
    let tlv = Tlv::from_raw(&storage, &mut position).unwrap();

    assert_eq!(tlv.tlv_type, TlvType::StdapiProxyCfgAutodetect);
    assert_eq!(tlv.value.unwrap(), TlvValue::Bool(true));
}

#[test]
fn test_from_raw_to_uint_tlv() {
    let tlv = Tlv::new(TlvType::ChannelId, TlvValue::UInt(2));
    let mut storage: Vec<u8> = vec![];
    tlv.to_raw(&mut storage).unwrap();

    let mut position = 0;
    let tlv = Tlv::from_raw(&storage, &mut position).unwrap();

    assert_eq!(tlv.tlv_type, TlvType::ChannelId);
    assert_eq!(tlv.value.unwrap(), TlvValue::UInt(2));
}

#[test]
fn test_from_raw_to_qword_tlv() {
    let tlv = Tlv::new(TlvType::StdapiMountSpaceFree, TlvValue::ULongInt(65535));
    let mut storage: Vec<u8> = vec![];
    tlv.to_raw(&mut storage).unwrap();

    let mut position = 0;
    let tlv = Tlv::from_raw(&storage, &mut position).unwrap();

    assert_eq!(tlv.tlv_type, TlvType::StdapiMountSpaceFree);
    assert_eq!(tlv.value.unwrap(), TlvValue::ULongInt(65535));
}

#[test]
fn test_from_raw_to_string_tlv() {
    let tlv = Tlv::new(TlvType::ChannelType, TlvValue::Str("duplex".to_owned()));
    let mut storage: Vec<u8> = vec![];
    tlv.to_raw(&mut storage).unwrap();

    let mut position = 0;
    let tlv = Tlv::from_raw(&storage, &mut position).unwrap();

    assert_eq!(tlv.tlv_type, TlvType::ChannelType);
    assert_eq!(tlv.value.unwrap(), TlvValue::Str("duplex".to_owned()));
}

#[test]
fn test_from_raw_to_bytes_tlv() {
    let tlv = Tlv::new(
        TlvType::TransCertHash,
        TlvValue::Bytes(vec![89, 77, 22, 23, 45]),
    );
    let mut storage: Vec<u8> = vec![];
    tlv.to_raw(&mut storage).unwrap();

    let mut position = 0;
    let tlv = Tlv::from_raw(&storage, &mut position).unwrap();

    assert_eq!(tlv.tlv_type, TlvType::TransCertHash);
    assert_eq!(tlv.value.unwrap(), TlvValue::Bytes(vec![89, 77, 22, 23, 45]));
}

#[test]
fn test_from_raw_to_group_tlv() {
    let mut tlv = Tlv {
        tlv_type: TlvType::TransGroup,
        value: None,
        tlvs: Vec::new(),
    };
    tlv.add_uint32(TlvType::TransType, 3).unwrap();
    tlv.add_string(TlvType::TransUrl, "https://ch.rs".to_string())
        .unwrap();
    tlv.add_bytes(TlvType::UUID, vec![1, 2, 3, 4, 5, 6, 7, 8])
        .unwrap();
    tlv.add_uint64(TlvType::StdapiMountSpaceFree, 65548).unwrap();

    let mut storage: Vec<u8> = vec![];
    tlv.to_raw(&mut storage).unwrap();

    let mut position = 0;
    let tlv = Tlv::from_raw(&storage, &mut position).unwrap();

    assert_eq!(tlv.tlv_type, TlvType::TransGroup);
    assert_eq!(
        first_child(&tlv, TlvType::TransType).value.as_ref().unwrap(),
        &TlvValue::UInt(3)
    );
    assert_eq!(
        first_child(&tlv, TlvType::TransUrl).value.as_ref().unwrap(),
        &TlvValue::Str("https://ch.rs".to_string())
    );
    assert_eq!(
        first_child(&tlv, TlvType::UUID).value.as_ref().unwrap(),
        &TlvValue::Bytes(vec![1, 2, 3, 4, 5, 6, 7, 8])
    );
    assert_eq!(
        first_child(&tlv, TlvType::StdapiMountSpaceFree)
            .value
            .as_ref()
            .unwrap(),
        &TlvValue::ULongInt(65548)
    );
}

#[test]
fn accessor_on_wrong_variant_is_type_mismatch() {
    let tlv = Tlv::new(TlvType::ChannelId, TlvValue::UInt(2));
    assert_eq!(tlv.value_as_string(), Err(Error::TypeMismatch));
    assert_eq!(tlv.value_as_bool(), Err(Error::TypeMismatch));
    assert_eq!(tlv.value_as_uint64(), Err(Error::TypeMismatch));
    assert_eq!(tlv.value_as_bytes(), Err(Error::TypeMismatch));
}

#[test]
fn accessor_on_group_is_no_value() {
    let group = Tlv {
        tlv_type: TlvType::TransGroup,
        value: None,
        tlvs: Vec::new(),
    };
    assert_eq!(group.value_as_string(), Err(Error::NoValue));
    assert_eq!(group.value_as_uint32(), Err(Error::NoValue));
}

#[test]
fn add_child_to_scalar_is_not_a_group() {
    let mut tlv = Tlv::new(TlvType::ChannelId, TlvValue::UInt(2));
    assert_eq!(
        tlv.add_string(TlvType::ChannelType, "x".to_owned()),
        Err(Error::NotAGroup)
    );
    assert_eq!(tlv.add_uint32(TlvType::ChannelId, 1), Err(Error::NotAGroup));
    assert_eq!(tlv.add_group(TlvType::TransGroup), Err(Error::NotAGroup));
    assert!(tlv.tlvs.is_empty());
}

#[test]
fn from_raw_rejects_unknown_field_id() {
    let storage: Vec<u8> = vec![0, 0, 0, 12, 0x12, 0x34, 0x56, 0x78, 0, 0, 0, 2];
    let mut position = 0;
    assert_eq!(
        Tlv::from_raw(&storage, &mut position),
        Err(Error::UnknownFieldId)
    );
}

#[test]
fn from_raw_rejects_reserved_kind() {
    // field id 0 is the reserved identifier of kind none
    let storage: Vec<u8> = vec![0, 0, 0, 9, 0, 0, 0, 0, 1];
    let mut position = 0;
    assert_eq!(
        Tlv::from_raw(&storage, &mut position),
        Err(Error::UnsupportedFeature)
    );
}

#[test]
fn from_raw_rejects_truncated_node() {
    let storage: Vec<u8> = vec![0, 0, 0, 15, 0, 1, 0, 51, 100];
    let mut position = 0;
    assert_eq!(
        Tlv::from_raw(&storage, &mut position),
        Err(Error::Truncated)
    );
}

#[test]
fn from_raw_rejects_invalid_utf8_payload() {
    let storage: Vec<u8> = vec![0, 0, 0, 10, 0, 1, 0, 51, 0xff, 0];
    let mut position = 0;
    assert_eq!(
        Tlv::from_raw(&storage, &mut position),
        Err(Error::InvalidUtf8)
    );
}
