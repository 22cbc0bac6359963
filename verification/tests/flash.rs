use pinetimers::flash::{
    self_test_pattern, write_chunks, FlashCommand, FlashIdentification,
    FlashStatusRegisterProtection, FlashStatusRegisters,
};

#[test]
fn command_opcodes_are_exact() {
    assert_eq!(FlashCommand::WriteEnable.to_bytes(), vec![0x06]);
    assert_eq!(FlashCommand::WriteDisable.to_bytes(), vec![0x04]);
    assert_eq!(FlashCommand::ReadIdentification.to_bytes(), vec![0x9f]);
    assert_eq!(FlashCommand::ReadStatusRegister0.to_bytes(), vec![0x05]);
    assert_eq!(FlashCommand::ReadStatusRegister1.to_bytes(), vec![0x35]);
    assert_eq!(FlashCommand::ChipErase.to_bytes(), vec![0xc7]);
    assert_eq!(FlashCommand::ResetEnable.to_bytes(), vec![0x66]);
    assert_eq!(FlashCommand::Reset.to_bytes(), vec![0x99]);
}

#[test]
fn addressed_commands_carry_the_address_big_endian() {
    assert_eq!(
        FlashCommand::Read(0x123456).to_bytes(),
        vec![0x03, 0x12, 0x34, 0x56]
    );
    assert_eq!(
        FlashCommand::SectorErase(0x00ABCD).to_bytes(),
        vec![0x20, 0x00, 0xAB, 0xCD]
    );
    assert_eq!(
        FlashCommand::Write(0x010203, vec![9, 8, 7]).to_bytes(),
        vec![0x02, 0x01, 0x02, 0x03, 9, 8, 7]
    );
}

#[test]
fn identification_reads_three_bytes() {
    let id = FlashIdentification::parse(&[0x0b, 0x15, 0x40]);
    assert_eq!(id.manufacturer, 0x0b);
    assert_eq!(id.memory_type, 0x15);
    assert_eq!(id.capacity, 0x40);
}

#[test]
fn status_registers_decode_each_field() {
    let value: u16 = 1 | 2 | (5 << 2) | (2 << 7) | (1 << 9) | (1 << 10) | (1 << 14);
    let status = FlashStatusRegisters::parse(value);
    assert!(status.write_in_progress);
    assert!(status.write_enable);
    assert_eq!(status.block_protect_bits, 5);
    assert_eq!(
        status.status_register_protect,
        FlashStatusRegisterProtection::PowerSupplyLockDown
    );
    assert!(status.quad_enabled);
    assert!(status.one_time_program);
    assert!(status.cmp);

    let clear = FlashStatusRegisters::parse(0);
    assert!(!clear.write_in_progress);
    assert!(!clear.write_enable);
    assert_eq!(clear.block_protect_bits, 0);
    assert_eq!(
        clear.status_register_protect,
        FlashStatusRegisterProtection::SoftwareProtected
    );
}

#[test]
fn protection_modes_decode_all_four() {
    assert_eq!(
        FlashStatusRegisterProtection::from_bits(0),
        FlashStatusRegisterProtection::SoftwareProtected
    );
    assert_eq!(
        FlashStatusRegisterProtection::from_bits(1),
        FlashStatusRegisterProtection::HardwareProtected
    );
    assert_eq!(
        FlashStatusRegisterProtection::from_bits(2),
        FlashStatusRegisterProtection::PowerSupplyLockDown
    );
    assert_eq!(
        FlashStatusRegisterProtection::from_bits(3),
        FlashStatusRegisterProtection::OneTimeProgram
    );
}

#[test]
fn writes_split_at_page_boundaries() {
    let data: Vec<u8> = (0..300).map(|i| (i % 256) as u8).collect();
    let chunks = write_chunks(0x12345, &data);
    assert_eq!(chunks.len(), 2);
    assert_eq!(chunks[0].0, 0x12345);
    assert_eq!(chunks[0].1.len(), 187);
    assert_eq!(chunks[0].1, data[..187].to_vec());
    assert_eq!(chunks[1].0, 0x12400);
    assert_eq!(chunks[1].1, data[187..].to_vec());
}

#[test]
fn aligned_page_sized_write_stays_whole() {
    let data = vec![7u8; 256];
    let chunks = write_chunks(0x100, &data);
    assert_eq!(chunks.len(), 1);
    assert_eq!(chunks[0].0, 0x100);
    assert_eq!(chunks[0].1, data);
}

#[test]
fn empty_write_is_one_empty_transfer() {
    let chunks = write_chunks(0x42, &[]);
    assert_eq!(chunks.len(), 1);
    assert_eq!(chunks[0].0, 0x42);
    assert!(chunks[0].1.is_empty());
}

#[test]
fn self_test_pattern_offsets_each_byte() {
    let pattern = self_test_pattern(10);
    assert_eq!(pattern.len(), 10);
    for (i, byte) in pattern.iter().enumerate() {
        assert_eq!(*byte as usize, (i + 10) % 256);
    }
    let large = self_test_pattern(300);
    assert_eq!(large[0], (300 % 256) as u8);
    assert_eq!(large[250], ((250 + 300) % 256) as u8);
}
