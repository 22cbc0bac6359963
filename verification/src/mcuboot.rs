//! The boot image's header and footer: magic validation, version fields,
//! the validity flag, and the human-readable version string. Reading and
//! writing the internal flash happens outside this crate; this module
//! works on the raw bytes.

use vstd::prelude::*;
use vstd::string::StringExecFns;

verus! {

/// The image version carried in the boot header.
#[derive(Debug, Clone, Copy, PartialEq, Eq, Structural)]
pub struct MCUBootHeaderVersion {
    pub major: u8,
    pub minor: u8,
    pub revision: u16,
    pub build_num: u32,
}

/// The boot header's decoded contents.
#[derive(Debug, Clone, Copy, PartialEq, Eq, Structural)]
pub struct MCUBootHeader {
    pub version: MCUBootHeaderVersion,
}

/// The boot header's magic bytes.
pub open spec fn spec_header_magic() -> Seq<u8> {
    seq![0x3du8, 0xb8u8, 0xf3u8, 0x96u8]
}

impl MCUBootHeader {
    /// The header decoded from its first 32 bytes: after the magic, the
    /// version sits at offset 20 (major, minor, then the revision and
    /// build number little-endian). A wrong magic means the flash holds no
    /// boot image the device can trust, a fatal condition returned to the
    /// caller.
    pub fn parse(data: &[u8]) -> (r: Option<MCUBootHeader>)
        requires
            data@.len() >= 32,
        ensures
            (r is Some) <==> data@.subrange(0, 4) == spec_header_magic(),
            r matches Some(h) ==> h == (MCUBootHeader {
                version: MCUBootHeaderVersion {
                    major: data@[20],
                    minor: data@[21],
                    revision: (data@[23] as int * 256 + data@[22] as int) as u16,
                    build_num: (data@[27] as int * 0x1000000 + data@[26] as int * 0x10000 + data@[
                        25] as int * 0x100 + data@[24] as int) as u32,
                },
            }),
    {
        if data[0] != 0x3d || data[1] != 0xb8 || data[2] != 0xf3 || data[3] != 0x96 {
            proof {
                assert(data@.subrange(0, 4) != spec_header_magic()) by {
                    if data@.subrange(0, 4) == spec_header_magic() {
                        assert(data@.subrange(0, 4)[0] == 0x3du8);
                        assert(data@.subrange(0, 4)[1] == 0xb8u8);
                        assert(data@.subrange(0, 4)[2] == 0xf3u8);
                        assert(data@.subrange(0, 4)[3] == 0x96u8);
                    }
                }
            }
            return None;
        }
        proof {
            assert(data@.subrange(0, 4) =~= spec_header_magic());
        }
        let revision: u16 = (data[23] as u16) * 256 + (data[22] as u16);
        let build_num: u32 = (data[27] as u32) * 0x1000000 + (data[26] as u32) * 0x10000 + (
        data[25] as u32) * 0x100 + (data[24] as u32);
        Some(
            MCUBootHeader {
                version: MCUBootHeaderVersion {
                    major: data[20],
                    minor: data[21],
                    revision,
                    build_num,
                },
            },
        )
    }
}

/// The boot footer's decoded contents: whether the image has been marked
/// valid.
#[derive(Debug, Clone, Copy, PartialEq, Eq, Structural)]
pub struct MCUBootFooter {
    pub is_valid: bool,
}

/// The boot footer's magic bytes (offsets 24..40 of the footer).
pub open spec fn spec_footer_magic() -> Seq<u8> {
    seq![
        0x77u8,
        0xc2u8,
        0x95u8,
        0xf3u8,
        0x60u8,
        0xd2u8,
        0xefu8,
        0x7fu8,
        0x35u8,
        0x52u8,
        0x50u8,
        0x0fu8,
        0x2cu8,
        0xb6u8,
        0x79u8,
        0x80u8,
    ]
}

/// The 40 footer bytes for a validity flag: erased flash (0xff)
/// everywhere, the flag byte at offset 16 programmed to 1 only when the
/// image is valid (0xff can be written to 0x01 without an erase), and the
/// magic at offsets 24..40.
pub open spec fn spec_footer_bytes(is_valid: bool) -> Seq<u8> {
    Seq::new(
        40,
        |i: int|
            if 24 <= i < 40 {
                spec_footer_magic()[i - 24]
            } else if i == 16 && is_valid {
                1u8
            } else {
                0xffu8
            },
    )
}

/// The footer magic as a value.
fn footer_magic() -> (r: Vec<u8>)
    ensures
        r@ == spec_footer_magic(),
{
    let r = vec![
        0x77u8,
        0xc2u8,
        0x95u8,
        0xf3u8,
        0x60u8,
        0xd2u8,
        0xefu8,
        0x7fu8,
        0x35u8,
        0x52u8,
        0x50u8,
        0x0fu8,
        0x2cu8,
        0xb6u8,
        0x79u8,
        0x80u8,
    ];
    proof {
        assert(r@ =~= spec_footer_magic());
    }
    r
}

impl MCUBootFooter {
    /// The footer decoded from its 40 bytes: the magic must be present,
    /// and the image is valid exactly when the flag byte is 1.
    pub fn parse(data: &[u8]) -> (r: Option<MCUBootFooter>)
        requires
            data@.len() >= 40,
        ensures
            (r is Some) <==> data@.subrange(24, 40) == spec_footer_magic(),
            r matches Some(f) ==> f.is_valid == (data@[16] == 1),
    {
        let magic = footer_magic();
        let mut k: usize = 0;
        while k < 16
            invariant
                k <= 16,
                data@.len() >= 40,
                magic@ == spec_footer_magic(),
                forall|j: int| 0 <= j < k ==> data@[24 + j] == spec_footer_magic()[j],
            decreases 16 - k,
        {
            if data[24 + k] != magic[k] {
                proof {
                    assert(data@.subrange(24, 40)[k as int] != spec_footer_magic()[k as int]);
                }
                return None;
            }
            k = k + 1;
        }
        proof {
            assert(data@.subrange(24, 40) =~= spec_footer_magic());
        }
        Some(MCUBootFooter { is_valid: data[16] == 1 })
    }

    /// The 40 bytes that store this footer.
    pub fn to_bytes(&self) -> (r: Vec<u8>)
        ensures
            r@ == spec_footer_bytes(self.is_valid),
    {
        let mut r: Vec<u8> = Vec::new();
        let mut k: usize = 0;
        while k < 16
            invariant
                k <= 16,
                r@.len() == k,
                forall|j: int| 0 <= j < k ==> r@[j] == 0xffu8,
            decreases 16 - k,
        {
            r.push(0xff);
            k = k + 1;
        }
        if self.is_valid {
            r.push(0x01);
        } else {
            r.push(0xff);
        }
        let mut k: usize = 17;
        while k < 24
            invariant
                17 <= k <= 24,
                r@.len() == k,
                forall|j: int| 0 <= j < 16 ==> r@[j] == 0xffu8,
                r@[16] == (if self.is_valid {
                    1u8
                } else {
                    0xffu8
                }),
                forall|j: int| 17 <= j < k ==> r@[j] == 0xffu8,
            decreases 24 - k,
        {
            r.push(0xff);
            k = k + 1;
        }
        let magic = footer_magic();
        let mut k: usize = 0;
        while k < 16
            invariant
                k <= 16,
                r@.len() == 24 + k,
                magic@ == spec_footer_magic(),
                forall|j: int| 0 <= j < 16 ==> r@[j] == 0xffu8,
                r@[16] == (if self.is_valid {
                    1u8
                } else {
                    0xffu8
                }),
                forall|j: int| 17 <= j < 24 ==> r@[j] == 0xffu8,
                forall|j: int| 0 <= j < k ==> r@[24 + j] == spec_footer_magic()[j],
            decreases 16 - k,
        {
            r.push(magic[k]);
            k = k + 1;
        }
        proof {
            assert(r@ =~= spec_footer_bytes(self.is_valid));
        }
        r
    }
}

/// The boot image's decoded header and footer.
#[derive(Debug, Clone, Copy, PartialEq, Eq, Structural)]
pub struct MCUBoot {
    pub header: MCUBootHeader,
    pub footer: MCUBootFooter,
}

/// The decimal digits of a number, most significant first.
pub open spec fn spec_decimal(n: int) -> Seq<char>
    recommends
        n >= 0,
    decreases n,
{
    if n < 10 {
        seq![spec_digit_char(n)]
    } else {
        spec_decimal(n / 10) + seq![spec_digit_char(n % 10)]
    }
}

/// The character of one decimal digit.
pub open spec fn spec_digit_char(d: int) -> char
    recommends
        0 <= d <= 9,
{
    if d == 0 {
        '0'
    } else if d == 1 {
        '1'
    } else if d == 2 {
        '2'
    } else if d == 3 {
        '3'
    } else if d == 4 {
        '4'
    } else if d == 5 {
        '5'
    } else if d == 6 {
        '6'
    } else if d == 7 {
        '7'
    } else if d == 8 {
        '8'
    } else {
        '9'
    }
}

/// Appends one decimal digit's character.
fn push_digit(out: &mut String, d: u32)
    requires
        d <= 9,
    ensures
        final(out)@ == old(out)@ + seq![spec_digit_char(d as int)],
{
    if d == 0 {
        proof {
            reveal_strlit("0");
        }
        out.append("0");
    } else if d == 1 {
        proof {
            reveal_strlit("1");
        }
        out.append("1");
    } else if d == 2 {
        proof {
            reveal_strlit("2");
        }
        out.append("2");
    } else if d == 3 {
        proof {
            reveal_strlit("3");
        }
        out.append("3");
    } else if d == 4 {
        proof {
            reveal_strlit("4");
        }
        out.append("4");
    } else if d == 5 {
        proof {
            reveal_strlit("5");
        }
        out.append("5");
    } else if d == 6 {
        proof {
            reveal_strlit("6");
        }
        out.append("6");
    } else if d == 7 {
        proof {
            reveal_strlit("7");
        }
        out.append("7");
    } else if d == 8 {
        proof {
            reveal_strlit("8");
        }
        out.append("8");
    } else {
        proof {
            reveal_strlit("9");
        }
        out.append("9");
    }
    proof {
        assert(final(out)@ =~= old(out)@ + seq![spec_digit_char(d as int)]);
    }
}

/// Appends a number's decimal digits, most significant first.
fn push_decimal(out: &mut String, n: u32)
    ensures
        final(out)@ == old(out)@ + spec_decimal(n as int),
    decreases n,
{
    if n >= 10 {
        push_decimal(out, n / 10);
        push_digit(out, n % 10);
        proof {
            assert(final(out)@ =~= old(out)@ + spec_decimal(n as int));
        }
    } else {
        push_digit(out, n);
    }
}

/// The version string: a `v`, the dotted major/minor/revision numbers in
/// decimal, then `+` and the build number.
pub open spec fn spec_version_string(v: MCUBootHeaderVersion) -> Seq<char> {
    seq!['v'] + spec_decimal(v.major as int) + seq!['.'] + spec_decimal(v.minor as int)
        + seq!['.'] + spec_decimal(v.revision as int) + seq!['+'] + spec_decimal(
        v.build_num as int,
    )
}

impl MCUBoot {
    /// Marks the image valid and hands back the footer bytes to program.
    pub fn mark_valid(&mut self) -> (r: Vec<u8>)
        ensures
            final(self).footer.is_valid,
            final(self).header == old(self).header,
            r@ == spec_footer_bytes(true),
    {
        self.footer.is_valid = true;
        self.footer.to_bytes()
    }

    /// The image version as text.
    pub fn version_string(&self) -> (r: String)
        ensures
            r@ == spec_version_string(self.header.version),
    {
        let mut out = String::new();
        proof {
            reveal_strlit("v");
            reveal_strlit(".");
            reveal_strlit("+");
        }
        out.append("v");
        push_decimal(&mut out, self.header.version.major as u32);
        out.append(".");
        push_decimal(&mut out, self.header.version.minor as u32);
        out.append(".");
        push_decimal(&mut out, self.header.version.revision as u32);
        out.append("+");
        push_decimal(&mut out, self.header.version.build_num);
        proof {
            assert(out@ =~= spec_version_string(self.header.version));
        }
        out
    }
}

} // verus!
