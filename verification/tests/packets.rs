use pinetimers::packets::{AdvData, BluetoothAddress, BluetoothPacket};

#[test]
fn flags_record_round_trips() {
    let bytes = AdvData::Flags(0b0000_0110).to_bytes();
    assert_eq!(bytes, vec![2, 1, 6]);
    let decoded = AdvData::data_from_pdu(&bytes);
    assert_eq!(decoded, vec![AdvData::Flags(6)]);
}

#[test]
fn shortened_name_record_round_trips() {
    let record = AdvData::ShortenedLocalName(b"ab".to_vec());
    let bytes = record.to_bytes();
    assert_eq!(bytes, vec![3, 8, 97, 98]);
    assert_eq!(AdvData::data_from_pdu(&bytes), vec![record]);
}

#[test]
fn complete_name_record_round_trips() {
    let record = AdvData::CompleteLocalName(b"It works?".to_vec());
    let bytes = record.to_bytes();
    assert_eq!(bytes[0], 10);
    assert_eq!(bytes[1], 9);
    assert_eq!(AdvData::data_from_pdu(&bytes), vec![record]);
}

#[test]
fn tx_power_record_round_trips() {
    let record = AdvData::TxPowerLevel(-8);
    let bytes = record.to_bytes();
    assert_eq!(bytes, vec![2, 10, 248]);
    assert_eq!(AdvData::data_from_pdu(&bytes), vec![record]);

    let positive = AdvData::TxPowerLevel(4);
    let bytes = positive.to_bytes();
    assert_eq!(bytes, vec![2, 10, 4]);
    assert_eq!(AdvData::data_from_pdu(&bytes), vec![positive]);
}

#[test]
fn unknown_record_round_trips() {
    let record = AdvData::Unknown(vec![0xFF, 1, 2]);
    let bytes = record.to_bytes();
    assert_eq!(bytes, vec![3, 0xFF, 1, 2]);
    assert_eq!(AdvData::data_from_pdu(&bytes), vec![record]);
}

#[test]
fn record_list_round_trips() {
    let records = vec![
        AdvData::CompleteLocalName(b"watch".to_vec()),
        AdvData::Flags(0),
        AdvData::TxPowerLevel(-40),
    ];
    let mut bytes: Vec<u8> = Vec::new();
    for record in &records {
        bytes.extend_from_slice(&record.clone().to_bytes());
    }
    assert_eq!(AdvData::data_from_pdu(&bytes), records);
}

#[test]
fn overrunning_record_becomes_final_unknown() {
    // The prefix claims five bytes but only three remain.
    let decoded = AdvData::data_from_pdu(&[5, 9, 104, 105]);
    assert_eq!(decoded, vec![AdvData::Unknown(vec![9, 104, 105])]);
}

#[test]
fn zero_length_prefix_stops_decoding() {
    let decoded = AdvData::data_from_pdu(&[0, 2, 1, 6]);
    assert_eq!(decoded, vec![]);
}

#[test]
fn truncated_flags_record_is_preserved_as_unknown() {
    // A one-byte record of the flags AD type has no flags byte to read.
    let decoded = AdvData::data_from_pdu(&[1, 1]);
    assert_eq!(decoded, vec![AdvData::Unknown(vec![1])]);
}

#[test]
fn address_needs_six_bytes() {
    assert!(BluetoothAddress::new(&[1, 2, 3, 4, 5], false).is_err());
    let addr = BluetoothAddress::new(&[1, 2, 3, 4, 5, 6, 7], false).unwrap();
    assert_eq!(addr.to_bytes(), [1, 2, 3, 4, 5, 6]);
    assert!(!addr.is_random());
    let random = BluetoothAddress::new(&[1, 2, 3, 4, 5, 6], true).unwrap();
    assert!(random.is_random());
}

#[test]
fn adv_ind_round_trips() {
    let packet = BluetoothPacket::AdvInd(
        BluetoothAddress::Public([0xbc, 0x9a, 0x78, 0x56, 0x34, 0x12]),
        vec![
            AdvData::CompleteLocalName(b"It works?".to_vec()),
            AdvData::Flags(0),
        ],
    );
    let bytes = packet.clone().to_bytes();
    assert_eq!(bytes[0], 0x00);
    assert_eq!(bytes[1] as usize, bytes.len() - 2);
    assert_eq!(&bytes[2..8], &[0xbc, 0x9a, 0x78, 0x56, 0x34, 0x12]);
    let decoded = BluetoothPacket::from_advertising_primary(&bytes).unwrap();
    assert_eq!(decoded, packet);
}

#[test]
fn adv_ind_random_address_sets_txadd() {
    let packet = BluetoothPacket::AdvInd(
        BluetoothAddress::Random([1, 2, 3, 4, 5, 6]),
        vec![AdvData::Flags(1)],
    );
    let bytes = packet.clone().to_bytes();
    assert_eq!(bytes[0], 0x40);
    assert_eq!(
        BluetoothPacket::from_advertising_primary(&bytes).unwrap(),
        packet
    );
}

#[test]
fn header_claiming_more_than_available_is_an_error() {
    assert!(BluetoothPacket::from_advertising_primary(&[0x00, 5, 1, 2]).is_err());
}

#[test]
fn buffer_shorter_than_header_is_an_error() {
    assert!(BluetoothPacket::from_advertising_primary(&[0x00]).is_err());
    assert!(BluetoothPacket::from_advertising_primary(&[]).is_err());
}

#[test]
fn short_address_field_is_an_error() {
    // An undirected advertisement whose payload cannot hold an address.
    assert!(BluetoothPacket::from_advertising_primary(&[0x00, 5, 1, 2, 3, 4, 5]).is_err());
}

#[test]
fn scan_req_decodes_two_addresses() {
    let mut buffer = vec![0x43, 12];
    buffer.extend_from_slice(&[1, 2, 3, 4, 5, 6]);
    buffer.extend_from_slice(&[7, 8, 9, 10, 11, 12]);
    let decoded = BluetoothPacket::from_advertising_primary(&buffer).unwrap();
    assert_eq!(
        decoded,
        BluetoothPacket::ScanReq(
            BluetoothAddress::Random([1, 2, 3, 4, 5, 6]),
            BluetoothAddress::Public([7, 8, 9, 10, 11, 12]),
        )
    );
}

#[test]
fn connect_ind_decodes_link_layer_data() {
    let mut buffer = vec![0x05, 34];
    buffer.extend_from_slice(&[1, 2, 3, 4, 5, 6]);
    buffer.extend_from_slice(&[7, 8, 9, 10, 11, 12]);
    let ll: Vec<u8> = (0u8..22).collect();
    buffer.extend_from_slice(&ll);
    let decoded = BluetoothPacket::from_advertising_primary(&buffer).unwrap();
    match decoded {
        BluetoothPacket::ConnectInd(init, adv, data) => {
            assert_eq!(init.to_bytes(), [1, 2, 3, 4, 5, 6]);
            assert_eq!(adv.to_bytes(), [7, 8, 9, 10, 11, 12]);
            assert_eq!(data.to_vec(), ll);
        }
        other => panic!("decoded the wrong PDU type: {:?}", other),
    }
}

#[test]
fn unrecognized_pdu_type_is_preserved() {
    let decoded = BluetoothPacket::from_advertising_primary(&[0x0F, 2, 9, 9]).unwrap();
    assert_eq!(decoded, BluetoothPacket::Unknown(15, vec![9, 9]));
}

#[test]
fn extended_advertising_decodes_to_its_marker() {
    let decoded = BluetoothPacket::from_advertising_primary(&[0x07, 0]).unwrap();
    assert_eq!(decoded, BluetoothPacket::AdvExtInd);
}
