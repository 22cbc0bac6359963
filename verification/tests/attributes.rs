use pinetimers::attributes::{
    AttributeAccessPermissions, AttributeUuid, BluetoothAttribute, BluetoothAttributeProvider,
    CharacteristicProperty, CharacteristicUUID, DeviceDateTime, ServiceUUID, WriteError,
};

#[test]
fn service_uuids_encode_little_endian() {
    assert_eq!(ServiceUUID::Battery.data(), vec![0x0F, 0x18]);
    assert_eq!(ServiceUUID::CurrentTime.data(), vec![0x05, 0x18]);
    assert_eq!(ServiceUUID::GenericAccess.data(), vec![0x00, 0x18]);
    assert_eq!(ServiceUUID::DeviceInformation.data(), vec![0x0A, 0x18]);
}

#[test]
fn property_bits_and_union() {
    assert_eq!(CharacteristicProperty::Read.value(), 0x02);
    assert_eq!(CharacteristicProperty::Write.value(), 0x08);
    let both = CharacteristicProperty::Read.or(CharacteristicProperty::Write);
    assert_eq!(both.value(), 0x0A);
    assert!(both.includes(CharacteristicProperty::Read));
    assert!(both.includes(CharacteristicProperty::Write));
    assert!(!both.includes(CharacteristicProperty::Notify));
}

#[test]
fn read_bit_alone_is_readable() {
    assert_eq!(
        CharacteristicProperty::Read.access_permissions(),
        AttributeAccessPermissions::Readable
    );
}

#[test]
fn read_and_write_bits_are_readable_and_writeable() {
    let both = CharacteristicProperty::Read.or(CharacteristicProperty::Write);
    assert_eq!(
        both.access_permissions(),
        AttributeAccessPermissions::ReadableAndWriteable
    );
}

#[test]
fn write_bit_alone_is_writeable() {
    assert_eq!(
        CharacteristicProperty::Write.access_permissions(),
        AttributeAccessPermissions::Writeable
    );
}

#[test]
fn characteristic_declaration_bytes_are_exact() {
    // Properties byte, value handle (always handle + 1) little-endian, then
    // the value's 128-bit UUID in little-endian byte order.
    let attribute = BluetoothAttribute::Characteristic(
        CharacteristicProperty::Read,
        CharacteristicUUID::BatteryLevel,
    );
    let data = attribute.data(2);
    assert_eq!(
        data,
        vec![
            0x02, 0x03, 0x00, 0xFB, 0x34, 0x9B, 0x5F, 0x80, 0x00, 0x00, 0x80, 0x00, 0x10, 0x00,
            0x00, 0x19, 0x2A, 0x00, 0x00,
        ]
    );
}

#[test]
fn attribute_types_follow_the_declaration_aliases() {
    assert_eq!(
        BluetoothAttribute::PrimaryService(ServiceUUID::Battery).att_type(),
        AttributeUuid::Uuid16(0x2800)
    );
    assert_eq!(
        BluetoothAttribute::SecondaryService(ServiceUUID::Battery).att_type(),
        AttributeUuid::Uuid16(0x2801)
    );
    assert_eq!(
        BluetoothAttribute::Characteristic(
            CharacteristicProperty::Read,
            CharacteristicUUID::BatteryLevel
        )
        .att_type(),
        AttributeUuid::Uuid16(0x2803)
    );
    let value_type =
        BluetoothAttribute::CharacteristicValue(CharacteristicUUID::DateTime, vec![]).att_type();
    assert_eq!(
        value_type,
        AttributeUuid::Uuid128(vec![
            0x00, 0x00, 0x2a, 0x08, 0x00, 0x00, 0x10, 0x00, 0x80, 0x00, 0x00, 0x80, 0x5F, 0x9B,
            0x34, 0xFB,
        ])
    );
}

#[test]
fn range_query_visits_each_handle_in_order() {
    let provider = BluetoothAttributeProvider::new();
    let all = provider.for_attrs_in_range(1, 0xFFFF);
    assert_eq!(all.len(), 11);
    for (i, attribute) in all.iter().enumerate() {
        assert_eq!(attribute.handle as usize, i + 1);
    }

    let two = provider.for_attrs_in_range(2, 3);
    assert_eq!(two.len(), 2);
    assert_eq!(two[0].handle, 2);
    assert_eq!(two[1].handle, 3);

    // The end is clamped to the last valid handle.
    let tail = provider.for_attrs_in_range(5, 100);
    assert_eq!(tail.len(), 7);
    assert_eq!(tail[0].handle, 5);
    assert_eq!(tail[6].handle, 11);
}

#[test]
fn range_query_beyond_the_table_is_empty() {
    let provider = BluetoothAttributeProvider::new();
    assert_eq!(provider.for_attrs_in_range(12, 20).len(), 0);
    assert_eq!(provider.for_attrs_in_range(100, 0xFFFF).len(), 0);
}

#[test]
fn grouping_attributes_are_the_service_declarations() {
    let provider = BluetoothAttributeProvider::new();
    assert!(provider.is_grouping_attr(&AttributeUuid::Uuid16(0x2800)));
    assert!(provider.is_grouping_attr(&AttributeUuid::Uuid16(0x2801)));
    assert!(!provider.is_grouping_attr(&AttributeUuid::Uuid16(0x2803)));
    assert!(!provider.is_grouping_attr(&AttributeUuid::Uuid128(vec![0; 16])));
    // The 128-bit expansions of the two aliases count as well.
    assert!(provider.is_grouping_attr(&AttributeUuid::Uuid128(vec![
        0x00, 0x00, 0x28, 0x00, 0x00, 0x00, 0x10, 0x00, 0x80, 0x00, 0x00, 0x80, 0x5F, 0x9B,
        0x34, 0xFB,
    ])));
    assert!(provider.is_grouping_attr(&AttributeUuid::Uuid128(vec![
        0x00, 0x00, 0x28, 0x01, 0x00, 0x00, 0x10, 0x00, 0x80, 0x00, 0x00, 0x80, 0x5F, 0x9B,
        0x34, 0xFB,
    ])));
}

#[test]
fn group_ends_just_before_the_next_service() {
    // Two services at handles 1 and 4, none after: the first group ends at
    // handle 3, the second at the table's last handle.
    let provider = BluetoothAttributeProvider::from_attributes(vec![
        BluetoothAttribute::PrimaryService(ServiceUUID::Battery),
        BluetoothAttribute::Characteristic(
            CharacteristicProperty::Read,
            CharacteristicUUID::BatteryLevel,
        ),
        BluetoothAttribute::CharacteristicValue(CharacteristicUUID::BatteryLevel, vec![0]),
        BluetoothAttribute::PrimaryService(ServiceUUID::CurrentTime),
        BluetoothAttribute::CharacteristicValue(CharacteristicUUID::DateTime, vec![0; 7]),
    ]);
    assert_eq!(provider.group_end(1).unwrap().handle, 3);
    assert_eq!(provider.group_end(4).unwrap().handle, 5);
    assert!(provider.group_end(2).is_none());
    assert!(provider.group_end(3).is_none());
}

#[test]
fn group_ends_in_the_device_table() {
    let provider = BluetoothAttributeProvider::new();
    assert_eq!(provider.group_end(1).unwrap().handle, 3);
    assert_eq!(provider.group_end(4).unwrap().handle, 8);
    assert_eq!(provider.group_end(9).unwrap().handle, 11);
}

#[test]
fn permissions_come_from_the_preceding_declaration() {
    let provider = BluetoothAttributeProvider::new();
    // Handle 1 is always readable; a value handle is judged by the
    // characteristic declaration one handle earlier.
    assert_eq!(
        provider.attr_access_permissions(1),
        AttributeAccessPermissions::Readable
    );
    assert_eq!(
        provider.attr_access_permissions(3),
        AttributeAccessPermissions::Readable
    );
    assert_eq!(
        provider.attr_access_permissions(6),
        AttributeAccessPermissions::ReadableAndWriteable
    );
    assert_eq!(
        provider.attr_access_permissions(8),
        AttributeAccessPermissions::ReadableAndWriteable
    );
}

#[test]
fn write_to_date_time_replaces_value_and_reports_the_time() {
    let mut provider = BluetoothAttributeProvider::new();
    let written = [0xE5, 0x07, 10, 12, 13, 14, 15];
    let result = provider.write_attr(6, &written).unwrap();
    assert_eq!(
        result,
        DeviceDateTime {
            year: 2021,
            month: 10,
            day: 12,
            hour: 13,
            minute: 14,
            second: 15,
        }
    );
    let stored = provider.for_attrs_in_range(6, 6);
    assert_eq!(stored[0].data, written.to_vec());
}

#[test]
fn write_to_current_time_needs_ten_bytes() {
    let mut provider = BluetoothAttributeProvider::new();
    let written = [0xE5, 0x07, 10, 12, 13, 14, 15, 0, 0, 0];
    let result = provider.write_attr(8, &written).unwrap();
    assert_eq!(result.year, 2021);
    assert_eq!(
        provider.write_attr(8, &[1, 2, 3]),
        Err(WriteError::InvalidLength)
    );
}

#[test]
fn wrong_length_write_is_rejected_and_changes_nothing() {
    let mut provider = BluetoothAttributeProvider::new();
    let before = provider.for_attrs_in_range(6, 6);
    assert_eq!(
        provider.write_attr(6, &[1, 2, 3]),
        Err(WriteError::InvalidLength)
    );
    let after = provider.for_attrs_in_range(6, 6);
    assert_eq!(before[0].data, after[0].data);
}

#[test]
fn write_outside_the_time_fields_is_rejected() {
    let mut provider = BluetoothAttributeProvider::new();
    assert_eq!(
        provider.write_attr(1, &[1, 2]),
        Err(WriteError::NotWritable)
    );
    assert_eq!(
        provider.write_attr(3, &[42]),
        Err(WriteError::NotWritable)
    );
}

#[test]
fn battery_update_scenario() {
    // One battery service: a read-only level characteristic and its value.
    let mut provider = BluetoothAttributeProvider::from_attributes(vec![
        BluetoothAttribute::PrimaryService(ServiceUUID::Battery),
        BluetoothAttribute::Characteristic(
            CharacteristicProperty::Read,
            CharacteristicUUID::BatteryLevel,
        ),
        BluetoothAttribute::CharacteristicValue(CharacteristicUUID::BatteryLevel, vec![0]),
    ]);
    let now = DeviceDateTime {
        year: 2022,
        month: 1,
        day: 1,
        hour: 0,
        minute: 0,
        second: 0,
    };
    provider.update_data(73, &now, b"v1.0.0+0");
    let value = provider.for_attrs_in_range(3, 3);
    assert_eq!(value[0].data, vec![73]);
    assert_eq!(
        provider.attr_access_permissions(2),
        AttributeAccessPermissions::Readable
    );
}

#[test]
fn update_data_refreshes_every_dynamic_value() {
    let mut provider = BluetoothAttributeProvider::new();
    let now = DeviceDateTime {
        year: 2021,
        month: 6,
        day: 7,
        hour: 8,
        minute: 9,
        second: 10,
    };
    provider.update_data(55, &now, b"v1.2.3+4");
    let all = provider.for_attrs_in_range(1, 11);
    assert_eq!(all[2].data, vec![55]);
    assert_eq!(all[5].data, vec![0xE5, 0x07, 6, 7, 8, 9, 10]);
    assert_eq!(all[7].data, vec![0xE5, 0x07, 6, 7, 8, 9, 10, 0, 0, 0]);
    assert_eq!(all[10].data, b"v1.2.3+4".to_vec());
    // The services and declarations are untouched.
    assert_eq!(all[0].data, vec![0x0F, 0x18]);
}
