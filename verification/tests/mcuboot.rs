use pinetimers::mcuboot::{MCUBoot, MCUBootFooter, MCUBootHeader, MCUBootHeaderVersion};

fn header_bytes(major: u8, minor: u8, revision: u16, build: u32) -> [u8; 32] {
    let mut data = [0u8; 32];
    data[0] = 0x3d;
    data[1] = 0xb8;
    data[2] = 0xf3;
    data[3] = 0x96;
    data[20] = major;
    data[21] = minor;
    data[22] = (revision % 256) as u8;
    data[23] = (revision / 256) as u8;
    data[24] = (build & 0xff) as u8;
    data[25] = ((build >> 8) & 0xff) as u8;
    data[26] = ((build >> 16) & 0xff) as u8;
    data[27] = ((build >> 24) & 0xff) as u8;
    data
}

#[test]
fn header_parses_version_fields_little_endian() {
    let header = MCUBootHeader::parse(&header_bytes(1, 2, 0x0403, 0xA1B2C3D4)).unwrap();
    assert_eq!(header.version.major, 1);
    assert_eq!(header.version.minor, 2);
    assert_eq!(header.version.revision, 0x0403);
    assert_eq!(header.version.build_num, 0xA1B2C3D4);
}

#[test]
fn header_with_wrong_magic_is_refused() {
    let mut data = header_bytes(1, 0, 0, 0);
    data[0] = 0x00;
    assert!(MCUBootHeader::parse(&data).is_none());
}

#[test]
fn footer_round_trips_through_its_bytes() {
    let valid = MCUBootFooter { is_valid: true };
    let bytes = valid.to_bytes();
    assert_eq!(bytes.len(), 40);
    assert_eq!(bytes[16], 0x01);
    assert_eq!(bytes[0], 0xff);
    assert_eq!(bytes[23], 0xff);
    assert_eq!(
        &bytes[24..40],
        &[0x77, 0xc2, 0x95, 0xf3, 0x60, 0xd2, 0xef, 0x7f, 0x35, 0x52, 0x50, 0x0f, 0x2c, 0xb6,
            0x79, 0x80]
    );
    let parsed = MCUBootFooter::parse(&bytes).unwrap();
    assert!(parsed.is_valid);

    let invalid = MCUBootFooter { is_valid: false };
    let bytes = invalid.to_bytes();
    assert_eq!(bytes[16], 0xff);
    assert!(!MCUBootFooter::parse(&bytes).unwrap().is_valid);
}

#[test]
fn footer_with_wrong_magic_is_refused() {
    let mut bytes = MCUBootFooter { is_valid: true }.to_bytes();
    bytes[30] = 0;
    assert!(MCUBootFooter::parse(&bytes).is_none());
}

#[test]
fn marking_valid_produces_the_programmed_footer() {
    let mut image = MCUBoot {
        header: MCUBootHeader {
            version: MCUBootHeaderVersion {
                major: 1,
                minor: 0,
                revision: 0,
                build_num: 0,
            },
        },
        footer: MCUBootFooter { is_valid: false },
    };
    let bytes = image.mark_valid();
    assert!(image.footer.is_valid);
    assert_eq!(bytes[16], 0x01);
    assert_eq!(bytes, MCUBootFooter { is_valid: true }.to_bytes());
}

#[test]
fn version_string_is_dotted_decimal() {
    let image = MCUBoot {
        header: MCUBootHeader {
            version: MCUBootHeaderVersion {
                major: 1,
                minor: 2,
                revision: 3,
                build_num: 4,
            },
        },
        footer: MCUBootFooter { is_valid: true },
    };
    assert_eq!(image.version_string(), "v1.2.3+4");
}

#[test]
fn version_string_handles_large_numbers() {
    let image = MCUBoot {
        header: MCUBootHeader {
            version: MCUBootHeaderVersion {
                major: 0,
                minor: 10,
                revision: 65535,
                build_num: 4294967295,
            },
        },
        footer: MCUBootFooter { is_valid: false },
    };
    assert_eq!(image.version_string(), "v0.10.65535+4294967295");
}
