use pinetimers::channels::Channel;
use pinetimers::packets::{AdvData, BluetoothAddress, BluetoothPacket};
use pinetimers::phy::{
    boot_advertisement, PhyRadio, PhyState, QueueOutcome, RadioEventKind, RadioEvents, RadioTask,
};

fn no_events() -> RadioEvents {
    RadioEvents {
        ready: false,
        address: false,
        payload: false,
        end: false,
        disabled: false,
        devmatch: false,
        devmiss: false,
        rssiend: false,
        bcmatch: false,
        crcok: false,
        crcerror: false,
    }
}

fn advertisement(first_byte: u8) -> BluetoothPacket {
    BluetoothPacket::AdvInd(
        BluetoothAddress::Public([first_byte, 2, 3, 4, 5, 6]),
        vec![AdvData::Flags(first_byte)],
    )
}

#[test]
fn raw_states_decode_exactly() {
    let cases: [(u32, PhyState); 9] = [
        (0, PhyState::Disabled),
        (1, PhyState::RxRU),
        (2, PhyState::RxIdle),
        (3, PhyState::Rx),
        (4, PhyState::RxDisable),
        (9, PhyState::TxRU),
        (10, PhyState::TxIdle),
        (11, PhyState::Tx),
        (12, PhyState::TxDisable),
    ];
    for (raw, state) in cases {
        assert_eq!(PhyState::from_raw(raw).unwrap(), state);
    }
    assert!(PhyState::from_raw(5).is_err());
    assert!(PhyState::from_raw(13).is_err());
    assert!(PhyState::from_raw(0xFFFF_FFFF).is_err());
}

#[test]
fn direction_predicates() {
    assert!(PhyState::Tx.is_tx());
    assert!(PhyState::TxRU.is_tx());
    assert!(PhyState::TxIdle.is_tx());
    assert!(PhyState::TxDisable.is_tx());
    assert!(!PhyState::Disabled.is_tx());
    assert!(!PhyState::Rx.is_tx());
    assert!(PhyState::Rx.is_rx());
    assert!(PhyState::RxRU.is_rx());
    assert!(PhyState::RxIdle.is_rx());
    assert!(PhyState::RxDisable.is_rx());
    assert!(!PhyState::TxIdle.is_rx());
}

#[test]
fn startup_configuration_matches_the_radio_contract() {
    let config = PhyRadio::startup_config();
    assert_eq!(config.tx_power_dbm, 4);
    assert_eq!(config.length_field_bits, 8);
    assert_eq!(config.s0_length_bytes, 1);
    assert_eq!(config.s1_length_bits, 0);
    assert_eq!(config.preamble_bits, 8);
    assert_eq!(config.max_packet_length, 255);
    assert_eq!(config.base_address_length, 3);
    assert!(config.whitening_enabled);
    assert_eq!(config.crc_length_bytes, 3);
    assert!(config.crc_skip_address);
    assert_eq!(config.crc_polynomial, 0x65B);
    assert_eq!(config.access_address, 0x8E89_BED6);
    assert_eq!(config.interframe_spacing_us, 150);
    assert!(config.interrupts_enabled);
}

#[test]
fn interrupt_mask_covers_every_event() {
    let on = PhyRadio::set_interrupts(true);
    assert!(on.ready && on.address && on.payload && on.end && on.disabled);
    assert!(on.devmatch && on.devmiss && on.rssiend && on.bcmatch && on.crcok && on.crcerror);
    let off = PhyRadio::set_interrupts(false);
    assert!(!off.ready && !off.end && !off.crcerror);
}

#[test]
fn advertising_channel_uses_the_fixed_defaults() {
    let radio = PhyRadio::new();
    let config = radio.set_channel(&Channel::new(39), None, None);
    assert_eq!(config.whitening_iv, 39 | 0x40);
    assert_eq!(config.crc_init, 0x555555);
    assert_eq!(config.frequency_offset, 80);
    assert_eq!(config.access_address, None);
}

#[test]
fn data_channel_takes_crc_seed_and_access_address() {
    let radio = PhyRadio::new();
    let config = radio.set_channel(&Channel::new(0), Some(0x123456), Some(0x8E89_0001));
    assert_eq!(config.whitening_iv, 0x40);
    assert_eq!(config.crc_init, 0x123456);
    assert_eq!(config.frequency_offset, 4);
    assert_eq!(config.access_address, Some(0x8E89_0001));
}

#[test]
fn tx_enable_disables_first_when_receiving() {
    let radio = PhyRadio::new();
    for state in [PhyState::Rx, PhyState::RxIdle, PhyState::RxRU] {
        let request = radio.tx_enable(state);
        assert_eq!(request.task, Some(RadioTask::Disable));
        assert!(request.shortcuts.disabled_txen);
        assert!(!request.shortcuts.ready_start);
    }
    let from_disabled = radio.tx_enable(PhyState::Disabled);
    assert_eq!(from_disabled.task, Some(RadioTask::TxEnable));
    let already = radio.tx_enable(PhyState::TxIdle);
    assert_eq!(already.task, None);
}

#[test]
fn rx_enable_interrupts_a_transmission() {
    let radio = PhyRadio::new();
    for state in [PhyState::Tx, PhyState::TxIdle, PhyState::TxRU] {
        let request = radio.rx_enable(state);
        assert_eq!(request.task, Some(RadioTask::Disable));
        assert!(request.shortcuts.disabled_rxen);
        assert!(request.shortcuts.ready_start);
        assert!(request.shortcuts.end_start);
    }
    let from_disabled = radio.rx_enable(PhyState::Disabled);
    assert_eq!(from_disabled.task, Some(RadioTask::RxEnable));
    let already = radio.rx_enable(PhyState::RxIdle);
    assert_eq!(already.task, None);
}

#[test]
fn queue_draining_transmits_in_order_then_listens() {
    let mut radio = PhyRadio::new();
    let first = advertisement(1);
    let second = advertisement(2);
    let first_bytes = first.clone().to_bytes();
    let second_bytes = second.clone().to_bytes();

    let request = radio.queue_packet(first, Channel::new(37), PhyState::Disabled);
    assert_eq!(request.task, Some(RadioTask::TxEnable));
    let request = radio.queue_packet(second, Channel::new(38), PhyState::TxRU);
    assert_eq!(request.task, None);

    // READY with the transmitter idle: the oldest packet goes out first,
    // tuned to its own channel.
    let mut events = no_events();
    events.ready = true;
    let outcome = radio.on_radio_interrupt(PhyState::TxIdle, &events);
    assert_eq!(outcome.acknowledged, Some(RadioEventKind::Ready));
    assert!(!outcome.decode_buffer);
    match outcome.queue_outcome {
        QueueOutcome::Transmit(config, bytes) => {
            assert_eq!(config.whitening_iv, 37 | 0x40);
            assert_eq!(config.frequency_offset, 2);
            assert_eq!(config.crc_init, 0x555555);
            assert_eq!(bytes, first_bytes);
        }
        other => panic!("expected a transmission, got {:?}", other),
    }

    // END after the first send: the next packet follows, in queue order.
    let mut events = no_events();
    events.end = true;
    let outcome = radio.on_radio_interrupt(PhyState::TxIdle, &events);
    assert_eq!(outcome.acknowledged, Some(RadioEventKind::End));
    assert!(!outcome.decode_buffer);
    match outcome.queue_outcome {
        QueueOutcome::Transmit(config, bytes) => {
            assert_eq!(config.whitening_iv, 38 | 0x40);
            assert_eq!(config.frequency_offset, 26);
            assert_eq!(bytes, second_bytes);
        }
        other => panic!("expected a transmission, got {:?}", other),
    }

    // END with an empty queue: fall back to listening.
    let outcome = radio.on_radio_interrupt(PhyState::TxIdle, &events);
    assert_eq!(outcome.acknowledged, Some(RadioEventKind::End));
    match outcome.queue_outcome {
        QueueOutcome::Listen(request) => {
            assert!(request.shortcuts.disabled_rxen);
            assert_eq!(request.task, Some(RadioTask::Disable));
        }
        other => panic!("expected a listen request, got {:?}", other),
    }
}

#[test]
fn end_while_receiving_asks_for_a_decode() {
    let mut radio = PhyRadio::new();
    let mut events = no_events();
    events.end = true;
    let outcome = radio.on_radio_interrupt(PhyState::Rx, &events);
    assert_eq!(outcome.acknowledged, Some(RadioEventKind::End));
    assert!(outcome.decode_buffer);
    // The queue is empty and the radio is not in TxIdle: keep listening.
    match outcome.queue_outcome {
        QueueOutcome::Listen(request) => assert_eq!(request.task, None),
        other => panic!("expected a listen request, got {:?}", other),
    }
}

#[test]
fn other_events_are_acknowledged_without_work() {
    let mut radio = PhyRadio::new();
    let mut events = no_events();
    events.crcerror = true;
    let outcome = radio.on_radio_interrupt(PhyState::Rx, &events);
    assert_eq!(outcome.acknowledged, Some(RadioEventKind::CrcError));
    assert!(matches!(outcome.queue_outcome, QueueOutcome::Idle));
    assert!(!outcome.decode_buffer);

    let outcome = radio.on_radio_interrupt(PhyState::Rx, &no_events());
    assert_eq!(outcome.acknowledged, None);
    assert!(matches!(outcome.queue_outcome, QueueOutcome::Idle));
}

#[test]
fn earlier_flags_take_precedence() {
    let mut radio = PhyRadio::new();
    let mut events = no_events();
    events.address = true;
    events.crcok = true;
    let outcome = radio.on_radio_interrupt(PhyState::Rx, &events);
    assert_eq!(outcome.acknowledged, Some(RadioEventKind::Address));
}

#[test]
fn boot_advertisement_carries_the_device_name() {
    let (packet, channel) = boot_advertisement();
    assert_eq!(channel.number, 39);
    assert!(channel.is_advertising());
    match &packet {
        BluetoothPacket::AdvInd(addr, records) => {
            assert_eq!(addr.to_bytes(), [0xbc, 0x9a, 0x78, 0x56, 0x34, 0x12]);
            assert!(!addr.is_random());
            assert_eq!(
                records,
                &vec![
                    AdvData::CompleteLocalName(b"It works?".to_vec()),
                    AdvData::Flags(0),
                ]
            );
        }
        other => panic!("queued the wrong PDU type: {:?}", other),
    }
    // It survives the wire.
    let bytes = packet.clone().to_bytes();
    assert_eq!(
        BluetoothPacket::from_advertising_primary(&bytes).unwrap(),
        packet
    );
}
