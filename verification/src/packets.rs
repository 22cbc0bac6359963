//! The advertising-channel packet codec: AD records (the length-prefixed
//! TLV structures inside advertising data) and the advertising PDU types,
//! with byte-exact encoding and decoding specifications.

use vstd::prelude::*;

verus! {

/// Error returned when a received buffer cannot be decoded. Malformed
/// over-the-air data is expected and must never crash the device, so every
/// boundary violation surfaces as this value.
#[derive(Debug, Clone, Copy, PartialEq, Eq, Structural)]
pub struct DecodeError;

/// One advertising-data (AD) record. Names and unrecognized records carry
/// their raw payload bytes.
#[derive(Debug, Clone, PartialEq, Eq)]
pub enum AdvData {
    Flags(u8),
    ShortenedLocalName(Vec<u8>),
    CompleteLocalName(Vec<u8>),
    TxPowerLevel(i8),
    Unknown(Vec<u8>),
}

/// Mathematical model of an AD record: payloads as sequences.
pub enum AdvDataModel {
    Flags(u8),
    ShortenedLocalName(Seq<u8>),
    CompleteLocalName(Seq<u8>),
    TxPowerLevel(i8),
    Unknown(Seq<u8>),
}

impl DeepView for AdvData {
    type V = AdvDataModel;

    open spec fn deep_view(&self) -> AdvDataModel {
        match self {
            AdvData::Flags(f) => AdvDataModel::Flags(*f),
            AdvData::ShortenedLocalName(n) => AdvDataModel::ShortenedLocalName(n@),
            AdvData::CompleteLocalName(n) => AdvDataModel::CompleteLocalName(n@),
            AdvData::TxPowerLevel(l) => AdvDataModel::TxPowerLevel(*l),
            AdvData::Unknown(d) => AdvDataModel::Unknown(d@),
        }
    }
}

/// The byte read back as a signed power level.
pub open spec fn spec_i8_from_byte(b: u8) -> i8 {
    if b < 128 {
        b as i8
    } else {
        (b - 256) as i8
    }
}

/// The two's-complement byte that carries a signed power level on the wire.
pub open spec fn spec_byte_from_i8(v: i8) -> u8 {
    if v >= 0 {
        v as u8
    } else {
        (v + 256) as u8
    }
}

/// The wire form of one AD record: a length prefix, the AD type byte, and
/// the type-specific payload.
pub open spec fn spec_record_bytes(m: AdvDataModel) -> Seq<u8> {
    match m {
        AdvDataModel::Flags(f) => seq![2u8, 1u8, f],
        AdvDataModel::ShortenedLocalName(n) => seq![(n.len() + 1) as u8, 8u8] + n,
        AdvDataModel::CompleteLocalName(n) => seq![(n.len() + 1) as u8, 9u8] + n,
        AdvDataModel::TxPowerLevel(l) => seq![2u8, 10u8, spec_byte_from_i8(l)],
        AdvDataModel::Unknown(d) => seq![d.len() as u8] + d,
    }
}

/// A record can be written to the wire when its length prefix fits in one
/// byte; an opaque record must also carry at least its AD type byte.
pub open spec fn spec_encodable(m: AdvDataModel) -> bool {
    match m {
        AdvDataModel::Flags(_) => true,
        AdvDataModel::ShortenedLocalName(n) => n.len() <= 254,
        AdvDataModel::CompleteLocalName(n) => n.len() <= 254,
        AdvDataModel::TxPowerLevel(_) => true,
        AdvDataModel::Unknown(d) => 1 <= d.len() <= 255,
    }
}

/// The value read from one record body (the bytes after the length prefix:
/// AD type byte, then payload). A known AD type whose payload is too short
/// for its fixed layout is preserved as an opaque record instead of failing.
pub open spec fn spec_record_value(rec: Seq<u8>) -> AdvDataModel
    recommends
        rec.len() >= 1,
{
    if rec[0] == 1 && rec.len() >= 2 {
        AdvDataModel::Flags(rec[1])
    } else if rec[0] == 8 {
        AdvDataModel::ShortenedLocalName(rec.skip(1))
    } else if rec[0] == 9 {
        AdvDataModel::CompleteLocalName(rec.skip(1))
    } else if rec[0] == 10 && rec.len() >= 2 {
        AdvDataModel::TxPowerLevel(spec_i8_from_byte(rec[1]))
    } else {
        AdvDataModel::Unknown(rec)
    }
}

/// The records read from an advertising-data buffer: repeatedly take a
/// length prefix and that many bytes; stop at a zero prefix or at the end;
/// a record whose declared length overruns the buffer becomes one final
/// opaque record holding exactly the remaining bytes.
pub open spec fn spec_decode_records(data: Seq<u8>) -> Seq<AdvDataModel>
    decreases data.len(),
{
    if data.len() == 0 {
        Seq::empty()
    } else {
        let len = data[0] as int;
        if len == 0 {
            Seq::empty()
        } else if 1 + len > data.len() {
            seq![AdvDataModel::Unknown(data.skip(1))]
        } else {
            seq![spec_record_value(data.subrange(1, 1 + len))] + spec_decode_records(
                data.skip(1 + len),
            )
        }
    }
}

/// The wire form of a whole record list: the records' bytes, concatenated.
pub open spec fn spec_records_bytes(l: Seq<AdvDataModel>) -> Seq<u8>
    decreases l.len(),
{
    if l.len() == 0 {
        Seq::empty()
    } else {
        spec_record_bytes(l[0]) + spec_records_bytes(l.skip(1))
    }
}

/// A record survives a round trip when it can be written and reading its
/// body back yields the same record. Every flags, name and power-level
/// record does (`lemma_known_records_reparse`); an opaque record does
/// unless its first byte collides with a known AD type.
pub open spec fn spec_reparses(m: AdvDataModel) -> bool {
    &&& spec_encodable(m)
    &&& spec_record_value(spec_record_bytes(m).skip(1)) == m
}

impl AdvData {
    pub fn from_record(rec: &[u8]) -> (r: AdvData)
        requires
            1 <= rec@.len(),
        ensures
            r.deep_view() == spec_record_value(rec@),
    {
        let t = rec[0];
        if t == 1 && rec.len() >= 2 {
            AdvData::Flags(rec[1])
        } else if t == 8 {
            let name = vstd::slice::slice_to_vec(&rec[1..rec.len()]);
            AdvData::ShortenedLocalName(name)
        } else if t == 9 {
            let name = vstd::slice::slice_to_vec(&rec[1..rec.len()]);
            AdvData::CompleteLocalName(name)
        } else if t == 10 && rec.len() >= 2 {
            AdvData::TxPowerLevel(byte_to_i8(rec[1]))
        } else {
            AdvData::Unknown(vstd::slice::slice_to_vec(rec))
        }
    }

    /// Reads every AD record out of an advertising-data buffer.
    pub fn data_from_pdu(data: &[u8]) -> (r: Vec<AdvData>)
        ensures
            r.deep_view() == spec_decode_records(data@),
    {
        let mut i: usize = 0;
        let mut ret: Vec<AdvData> = Vec::new();

        proof {
            assert(data@.skip(0) =~= data@);
            assert(ret.deep_view() =~= Seq::<AdvDataModel>::empty());
            assert(ret.deep_view() + spec_decode_records(data@) =~= spec_decode_records(data@));
        }

        while i < data.len()
            invariant
                i <= data@.len(),
                ret.deep_view() + spec_decode_records(data@.skip(i as int)) == spec_decode_records(
                    data@,
                ),
            decreases data@.len() - i,
        {
            let ghost at_record = data@.skip(i as int);
            let len: usize = data[i] as usize;
            i = i + 1;

            if len == 0 {
                proof {
                    assert(ret.deep_view() + Seq::<AdvDataModel>::empty() =~= ret.deep_view());
                }
                return ret;
            }

            if len > data.len() - i {
                let tail = vstd::slice::slice_to_vec(&data[i..data.len()]);
                let ghost old_ret = ret.deep_view();
                ret.push(AdvData::Unknown(tail));
                proof {
                    assert(at_record.skip(1) =~= data@.skip(i as int));
                    assert(ret.deep_view() =~= old_ret + seq![
                        AdvDataModel::Unknown(data@.skip(i as int)),
                    ]);
                    assert(ret.deep_view() + Seq::<AdvDataModel>::empty() =~= ret.deep_view());
                }
                return ret;
            } else {
                let rec = &data[i..i + len];
                let ghost old_ret = ret.deep_view();
                let value = AdvData::from_record(rec);
                ret.push(value);
                proof {
                    assert(at_record.subrange(1, 1 + len as int) =~= data@.subrange(
                        i as int,
                        i as int + len as int,
                    ));
                    assert(at_record.skip(1 + len as int) =~= data@.skip(i as int + len as int));
                    assert(ret.deep_view() =~= old_ret + seq![value.deep_view()]);
                    assert(ret.deep_view() + spec_decode_records(data@.skip(i as int + len as int))
                        =~= old_ret + spec_decode_records(at_record));
                }
                i = i + len;
            }
        }
        proof {
            assert(data@.skip(i as int) =~= Seq::<u8>::empty());
            assert(ret.deep_view() + Seq::<AdvDataModel>::empty() =~= ret.deep_view());
        }
        ret
    }

    /// Writes this record to the wire: length prefix, AD type byte, payload.
    pub fn to_bytes(&self) -> (r: Vec<u8>)
        requires
            spec_encodable(self.deep_view()),
        ensures
            r@ == spec_record_bytes(self.deep_view()),
    {
        match self {
            AdvData::Flags(f) => {
                let r = vec![2u8, 1u8, *f];
                proof {
                    assert(r@ =~= spec_record_bytes(AdvDataModel::Flags(*f)));
                }
                r
            },
            AdvData::ShortenedLocalName(n) => {
                let mut r = vec![(n.len() + 1) as u8, 8u8];
                let mut tail = vstd::slice::slice_to_vec(n.as_slice());
                r.append(&mut tail);
                proof {
                    assert(r@ =~= spec_record_bytes(AdvDataModel::ShortenedLocalName(n@)));
                }
                r
            },
            AdvData::CompleteLocalName(n) => {
                let mut r = vec![(n.len() + 1) as u8, 9u8];
                let mut tail = vstd::slice::slice_to_vec(n.as_slice());
                r.append(&mut tail);
                proof {
                    assert(r@ =~= spec_record_bytes(AdvDataModel::CompleteLocalName(n@)));
                }
                r
            },
            AdvData::TxPowerLevel(l) => {
                let r = vec![2u8, 10u8, i8_to_byte(*l)];
                proof {
                    assert(r@ =~= spec_record_bytes(AdvDataModel::TxPowerLevel(*l)));
                }
                r
            },
            AdvData::Unknown(d) => {
                let mut r = vec![d.len() as u8];
                let mut tail = vstd::slice::slice_to_vec(d.as_slice());
                r.append(&mut tail);
                proof {
                    assert(r@ =~= spec_record_bytes(AdvDataModel::Unknown(d@)));
                }
                r
            },
        }
    }
}

fn byte_to_i8(b: u8) -> (r: i8)
    ensures
        r == spec_i8_from_byte(b),
{
    assert(b as i8 == spec_i8_from_byte(b)) by (bit_vector);
    b as i8
}

fn i8_to_byte(v: i8) -> (r: u8)
    ensures
        r == spec_byte_from_i8(v),
{
    assert(v as u8 == spec_byte_from_i8(v)) by (bit_vector);
    v as u8
}

/// A device address: six bytes, public or random. The distinguishing bit
/// lives in the PDU header that referenced the address, not in the bytes.
#[derive(Debug, Clone, Copy, PartialEq, Eq)]
pub enum BluetoothAddress {
    Random([u8; 6]),
    Public([u8; 6]),
}

/// Mathematical model of an address: its six bytes and whether it is random.
#[verifier::ext_equal]
pub struct AddressModel {
    pub random: bool,
    pub bytes: Seq<u8>,
}

impl DeepView for BluetoothAddress {
    type V = AddressModel;

    open spec fn deep_view(&self) -> AddressModel {
        match self {
            BluetoothAddress::Random(b) => AddressModel { random: true, bytes: b@ },
            BluetoothAddress::Public(b) => AddressModel { random: false, bytes: b@ },
        }
    }
}

impl BluetoothAddress {
    /// Reads an address from the front of a buffer. Fewer than six bytes is
    /// a decoding error, never a crash.
    pub fn new(data: &[u8], is_random: bool) -> (r: Result<BluetoothAddress, DecodeError>)
        ensures
            data@.len() >= 6 ==> (r matches Ok(a) && a.deep_view() == (AddressModel {
                random: is_random,
                bytes: data@.subrange(0, 6),
            })),
            data@.len() < 6 ==> r is Err,
    {
        if data.len() < 6 {
            return Err(DecodeError);
        }
        let bytes: [u8; 6] = [data[0], data[1], data[2], data[3], data[4], data[5]];
        proof {
            assert(bytes@ =~= data@.subrange(0, 6));
        }
        if is_random {
            Ok(BluetoothAddress::Random(bytes))
        } else {
            Ok(BluetoothAddress::Public(bytes))
        }
    }

    pub fn to_bytes(self) -> (r: [u8; 6])
        ensures
            r@ == self.deep_view().bytes,
    {
        match self {
            BluetoothAddress::Public(x) => x,
            BluetoothAddress::Random(x) => x,
        }
    }

    pub fn is_random(&self) -> (r: bool)
        ensures
            r == self.deep_view().random,
    {
        match self {
            BluetoothAddress::Public(_) => false,
            BluetoothAddress::Random(_) => true,
        }
    }
}

/// One advertising-channel PDU, covering the PDU types the device handles.
/// Unrecognized PDU types are preserved with their raw payload so that
/// inspection tools keep working.
#[derive(Debug, Clone, PartialEq, Eq)]
pub enum BluetoothPacket {
    AdvInd(BluetoothAddress, Vec<AdvData>),
    AdvDirectInd(BluetoothAddress, BluetoothAddress),
    AdvNonconnInd(BluetoothAddress, Vec<AdvData>),
    ScanReq(BluetoothAddress, BluetoothAddress),
    ScanRsp(BluetoothAddress),
    ConnectInd(BluetoothAddress, BluetoothAddress, [u8; 22]),
    AdvScanInd(BluetoothAddress, Vec<AdvData>),
    AdvExtInd,
    Unknown(u8, Vec<u8>),
}

/// Mathematical model of a PDU.
#[verifier::ext_equal]
pub enum PacketModel {
    AdvInd(AddressModel, Seq<AdvDataModel>),
    AdvDirectInd(AddressModel, AddressModel),
    AdvNonconnInd(AddressModel, Seq<AdvDataModel>),
    ScanReq(AddressModel, AddressModel),
    ScanRsp(AddressModel),
    ConnectInd(AddressModel, AddressModel, Seq<u8>),
    AdvScanInd(AddressModel, Seq<AdvDataModel>),
    AdvExtInd,
    Unknown(u8, Seq<u8>),
}

impl DeepView for BluetoothPacket {
    type V = PacketModel;

    open spec fn deep_view(&self) -> PacketModel {
        match self {
            BluetoothPacket::AdvInd(a, d) => PacketModel::AdvInd(a.deep_view(), d.deep_view()),
            BluetoothPacket::AdvDirectInd(a, t) => PacketModel::AdvDirectInd(
                a.deep_view(),
                t.deep_view(),
            ),
            BluetoothPacket::AdvNonconnInd(a, d) => PacketModel::AdvNonconnInd(
                a.deep_view(),
                d.deep_view(),
            ),
            BluetoothPacket::ScanReq(s, a) => PacketModel::ScanReq(s.deep_view(), a.deep_view()),
            BluetoothPacket::ScanRsp(a) => PacketModel::ScanRsp(a.deep_view()),
            BluetoothPacket::ConnectInd(i, a, ll) => PacketModel::ConnectInd(
                i.deep_view(),
                a.deep_view(),
                ll@,
            ),
            BluetoothPacket::AdvScanInd(a, d) => PacketModel::AdvScanInd(
                a.deep_view(),
                d.deep_view(),
            ),
            BluetoothPacket::AdvExtInd => PacketModel::AdvExtInd,
            BluetoothPacket::Unknown(t, p) => PacketModel::Unknown(*t, p@),
        }
    }
}

/// The address whose six bytes sit at the front of `bytes`.
pub open spec fn spec_address(bytes: Seq<u8>, random: bool) -> AddressModel
    recommends
        bytes.len() == 6,
{
    AddressModel { random, bytes }
}

/// The packet read from a received advertising-channel buffer: a two-byte
/// header (4-bit PDU type, reserved bit, channel-selection bit, TxAdd,
/// RxAdd; then the payload length), followed by the payload laid out per
/// PDU type. A header whose declared length overruns the buffer, or a
/// payload too short for its PDU type's fixed fields, reads as nothing.
pub open spec fn spec_decode_packet(data: Seq<u8>) -> Option<PacketModel> {
    if data.len() < 2 {
        None
    } else {
        let pdu_type = data[0] & 0x0f;
        let txadd = (data[0] & 0x40) != 0;
        let rxadd = (data[0] & 0x80) != 0;
        let len = data[1] as int;
        if 2 + len > data.len() {
            None
        } else {
            let pdu = data.subrange(2, 2 + len);
            if pdu_type == 0 {
                if pdu.len() < 6 {
                    None
                } else {
                    Some(
                        PacketModel::AdvInd(
                            spec_address(pdu.subrange(0, 6), txadd),
                            spec_decode_records(pdu.skip(6)),
                        ),
                    )
                }
            } else if pdu_type == 1 {
                if pdu.len() < 12 {
                    None
                } else {
                    Some(
                        PacketModel::AdvDirectInd(
                            spec_address(pdu.subrange(0, 6), txadd),
                            spec_address(pdu.subrange(6, 12), rxadd),
                        ),
                    )
                }
            } else if pdu_type == 2 {
                if pdu.len() < 6 {
                    None
                } else {
                    Some(
                        PacketModel::AdvNonconnInd(
                            spec_address(pdu.subrange(0, 6), txadd),
                            spec_decode_records(pdu.skip(6)),
                        ),
                    )
                }
            } else if pdu_type == 3 {
                if pdu.len() < 12 {
                    None
                } else {
                    Some(
                        PacketModel::ScanReq(
                            spec_address(pdu.subrange(0, 6), txadd),
                            spec_address(pdu.subrange(6, 12), rxadd),
                        ),
                    )
                }
            } else if pdu_type == 4 {
                if pdu.len() < 6 {
                    None
                } else {
                    Some(PacketModel::ScanRsp(spec_address(pdu.subrange(0, 6), txadd)))
                }
            } else if pdu_type == 5 {
                if pdu.len() < 34 {
                    None
                } else {
                    Some(
                        PacketModel::ConnectInd(
                            spec_address(pdu.subrange(0, 6), txadd),
                            spec_address(pdu.subrange(6, 12), rxadd),
                            pdu.subrange(12, 34),
                        ),
                    )
                }
            } else if pdu_type == 6 {
                if pdu.len() < 6 {
                    None
                } else {
                    Some(
                        PacketModel::AdvScanInd(
                            spec_address(pdu.subrange(0, 6), txadd),
                            spec_decode_records(pdu.skip(6)),
                        ),
                    )
                }
            } else if pdu_type == 7 {
                Some(PacketModel::AdvExtInd)
            } else {
                Some(PacketModel::Unknown(pdu_type, pdu))
            }
        }
    }
}

impl BluetoothPacket {
    /// Decodes a received advertising-channel buffer. Truncated headers,
    /// overrunning length claims and short address fields are decoding
    /// errors, never crashes.
    pub fn from_advertising_primary(data: &[u8]) -> (r: Result<BluetoothPacket, DecodeError>)
        ensures
            (r is Err) <==> (spec_decode_packet(data@) is None),
            r matches Ok(p) ==> spec_decode_packet(data@) == Some(p.deep_view()),
    {
        if data.len() < 2 {
            return Err(DecodeError);
        }
        let pdu_type = data[0] & 0x0f;
        let txadd = (data[0] & 0x40) != 0;
        let rxadd = (data[0] & 0x80) != 0;
        let length = data[1] as usize;
        if length > data.len() - 2 {
            return Err(DecodeError);
        }
        let pdu = &data[2..2 + length];

        match pdu_type {
            0 => {
                match Self::address_and_records(pdu, txadd) {
                    Ok((addr, records)) => Ok(BluetoothPacket::AdvInd(addr, records)),
                    Err(e) => Err(e),
                }
            },
            1 => {
                match Self::address_pair(pdu, txadd, rxadd) {
                    Ok((first, second)) => Ok(BluetoothPacket::AdvDirectInd(first, second)),
                    Err(e) => Err(e),
                }
            },
            2 => {
                match Self::address_and_records(pdu, txadd) {
                    Ok((addr, records)) => Ok(BluetoothPacket::AdvNonconnInd(addr, records)),
                    Err(e) => Err(e),
                }
            },
            3 => {
                match Self::address_pair(pdu, txadd, rxadd) {
                    Ok((first, second)) => Ok(BluetoothPacket::ScanReq(first, second)),
                    Err(e) => Err(e),
                }
            },
            4 => {
                match BluetoothAddress::new(pdu, txadd) {
                    Ok(addr) => Ok(BluetoothPacket::ScanRsp(addr)),
                    Err(e) => Err(e),
                }
            },
            5 => {
                if pdu.len() < 34 {
                    return Err(DecodeError);
                }
                let first = match BluetoothAddress::new(pdu, txadd) {
                    Ok(a) => a,
                    Err(e) => return Err(e),
                };
                let second = match BluetoothAddress::new(&pdu[6..12], rxadd) {
                    Ok(a) => a,
                    Err(e) => return Err(e),
                };
                proof {
                    assert((pdu@.subrange(6, 12)).subrange(0, 6) =~= pdu@.subrange(6, 12));
                }
                let ll_data: [u8; 22] = [
                    pdu[12],
                    pdu[13],
                    pdu[14],
                    pdu[15],
                    pdu[16],
                    pdu[17],
                    pdu[18],
                    pdu[19],
                    pdu[20],
                    pdu[21],
                    pdu[22],
                    pdu[23],
                    pdu[24],
                    pdu[25],
                    pdu[26],
                    pdu[27],
                    pdu[28],
                    pdu[29],
                    pdu[30],
                    pdu[31],
                    pdu[32],
                    pdu[33],
                ];
                proof {
                    assert(ll_data@ =~= pdu@.subrange(12, 34));
                }
                Ok(BluetoothPacket::ConnectInd(first, second, ll_data))
            },
            6 => {
                match Self::address_and_records(pdu, txadd) {
                    Ok((addr, records)) => Ok(BluetoothPacket::AdvScanInd(addr, records)),
                    Err(e) => Err(e),
                }
            },
            7 => Ok(BluetoothPacket::AdvExtInd),
            _ => Ok(BluetoothPacket::Unknown(pdu_type, vstd::slice::slice_to_vec(pdu))),
        }
    }

    /// Reads the leading address and the AD records that follow it, the
    /// shared payload layout of the undirected advertising PDU types.
    fn address_and_records(pdu: &[u8], txadd: bool) -> (r: Result<
        (BluetoothAddress, Vec<AdvData>),
        DecodeError,
    >)
        ensures
            (r is Err) <==> pdu@.len() < 6,
            r matches Ok((addr, records)) ==> {
                &&& addr.deep_view() == spec_address(pdu@.subrange(0, 6), txadd)
                &&& records.deep_view() == spec_decode_records(pdu@.skip(6))
            },
    {
        if pdu.len() < 6 {
            return Err(DecodeError);
        }
        let addr = match BluetoothAddress::new(pdu, txadd) {
            Ok(a) => a,
            Err(e) => return Err(e),
        };
        let rest = &pdu[6..pdu.len()];
        proof {
            assert(rest@ =~= pdu@.skip(6));
        }
        let records = AdvData::data_from_pdu(rest);
        Ok((addr, records))
    }

    /// Reads the two consecutive addresses that make up the payload of the
    /// directed advertising and scan-request PDU types.
    fn address_pair(pdu: &[u8], txadd: bool, rxadd: bool) -> (r: Result<
        (BluetoothAddress, BluetoothAddress),
        DecodeError,
    >)
        ensures
            (r is Err) <==> pdu@.len() < 12,
            r matches Ok((first, second)) ==> {
                &&& first.deep_view() == spec_address(pdu@.subrange(0, 6), txadd)
                &&& second.deep_view() == spec_address(pdu@.subrange(6, 12), rxadd)
            },
    {
        if pdu.len() < 12 {
            return Err(DecodeError);
        }
        let first = match BluetoothAddress::new(pdu, txadd) {
            Ok(a) => a,
            Err(e) => return Err(e),
        };
        let second = match BluetoothAddress::new(&pdu[6..12], rxadd) {
            Ok(a) => a,
            Err(e) => return Err(e),
        };
        proof {
            assert((pdu@.subrange(6, 12)).subrange(0, 6) =~= pdu@.subrange(6, 12));
        }
        Ok((first, second))
    }
}

/// Every flags, local-name and power-level record that fits on the wire
/// reads back as itself.
pub proof fn lemma_known_records_reparse(m: AdvDataModel)
    requires
        spec_encodable(m),
        !(m is Unknown),
    ensures
        spec_reparses(m),
{
    match m {
        AdvDataModel::Flags(f) => {
            assert(spec_record_bytes(m).skip(1) =~= seq![1u8, f]);
        },
        AdvDataModel::ShortenedLocalName(n) => {
            assert(spec_record_bytes(m).skip(1) =~= seq![8u8] + n);
            assert((seq![8u8] + n).skip(1) =~= n);
        },
        AdvDataModel::CompleteLocalName(n) => {
            assert(spec_record_bytes(m).skip(1) =~= seq![9u8] + n);
            assert((seq![9u8] + n).skip(1) =~= n);
        },
        AdvDataModel::TxPowerLevel(l) => {
            assert(spec_record_bytes(m).skip(1) =~= seq![10u8, spec_byte_from_i8(l)]);
            lemma_i8_byte_round_trip(l);
        },
        AdvDataModel::Unknown(_) => {
        },
    }
}

proof fn lemma_i8_byte_round_trip(v: i8)
    ensures
        spec_i8_from_byte(spec_byte_from_i8(v)) == v,
{
}

/// Reading a buffer that starts with the wire form of a record that
/// round-trips yields that record and then whatever the rest decodes to.
proof fn lemma_decode_record_prefix(m: AdvDataModel, rest: Seq<u8>)
    requires
        spec_reparses(m),
    ensures
        spec_decode_records(spec_record_bytes(m) + rest) == seq![m] + spec_decode_records(rest),
{
    let b = spec_record_bytes(m);
    let whole = b + rest;
    assert(b[0] as int == b.len() - 1 && b[0] != 0) by {
        match m {
            AdvDataModel::ShortenedLocalName(n) => {
                assert(b[0] == (n.len() + 1) as u8);
            },
            AdvDataModel::CompleteLocalName(n) => {
                assert(b[0] == (n.len() + 1) as u8);
            },
            AdvDataModel::Unknown(d) => {
                assert(b[0] == d.len() as u8);
            },
            _ => {},
        }
    }
    let len = whole[0] as int;
    assert(1 + len == b.len());
    assert(whole.subrange(1, 1 + len) =~= b.skip(1));
    assert(whole.skip(1 + len) =~= rest);
    assert(spec_decode_records(whole) =~= seq![m] + spec_decode_records(rest));
}

/// A buffer whose nonzero leading length prefix claims more bytes than
/// remain decodes to exactly one final opaque record holding the whole
/// remainder: an overrunning record is preserved, never an error.
pub proof fn lemma_overrun_record_is_kept(data: Seq<u8>)
    requires
        data.len() >= 1,
        data[0] != 0,
        1 + data[0] as int > data.len(),
    ensures
        spec_decode_records(data) == seq![AdvDataModel::Unknown(data.skip(1))],
{
}

/// Encoding any list of round-trippable AD records and then decoding the
/// resulting buffer yields the original list.
pub proof fn lemma_adv_data_round_trip(l: Seq<AdvDataModel>)
    requires
        forall|k: int| 0 <= k < l.len() ==> spec_reparses(#[trigger] l[k]),
    ensures
        spec_decode_records(spec_records_bytes(l)) == l,
    decreases l.len(),
{
    if l.len() == 0 {
        assert(spec_decode_records(spec_records_bytes(l)) =~= l);
    } else {
        lemma_adv_data_round_trip(l.skip(1));
        lemma_decode_record_prefix(l[0], spec_records_bytes(l.skip(1)));
        assert(seq![l[0]] + l.skip(1) =~= l);
    }
}

/// The bytes of a record list split at any point into the bytes of the
/// prefix and the bytes of the rest.
proof fn lemma_records_bytes_split(l: Seq<AdvDataModel>, k: int)
    requires
        0 <= k <= l.len(),
    ensures
        spec_records_bytes(l) == spec_records_bytes(l.take(k)) + spec_records_bytes(l.skip(k)),
    decreases k,
{
    if k == 0 {
        assert(l.take(0) =~= Seq::<AdvDataModel>::empty());
        assert(l.skip(0) =~= l);
        assert(spec_records_bytes(l) =~= Seq::<u8>::empty() + spec_records_bytes(l));
    } else {
        lemma_records_bytes_split(l.skip(1), k - 1);
        assert(l.take(k)[0] == l[0]);
        assert(l.take(k).skip(1) =~= l.skip(1).take(k - 1));
        assert(l.skip(k) =~= l.skip(1).skip(k - 1));
        assert(spec_record_bytes(l[0]) + (spec_records_bytes(l.skip(1).take(k - 1))
            + spec_records_bytes(l.skip(1).skip(k - 1))) =~= (spec_record_bytes(l[0])
            + spec_records_bytes(l.skip(1).take(k - 1))) + spec_records_bytes(
            l.skip(1).skip(k - 1),
        ));
    }
}

/// Appending one more record to a prefix appends that record's bytes.
proof fn lemma_records_bytes_take_succ(l: Seq<AdvDataModel>, k: int)
    requires
        0 <= k < l.len(),
    ensures
        spec_records_bytes(l.take(k + 1)) == spec_records_bytes(l.take(k)) + spec_record_bytes(
            l[k],
        ),
    decreases k,
{
    if k == 0 {
        let t = l.take(1);
        assert(t.len() == 1 && t[0] == l[0]);
        assert(t.skip(1) =~= Seq::<AdvDataModel>::empty());
        assert(spec_records_bytes(t) == spec_record_bytes(t[0]) + spec_records_bytes(t.skip(1)));
        assert(spec_records_bytes(Seq::<AdvDataModel>::empty()) == Seq::<u8>::empty());
        assert(l.take(0) =~= Seq::<AdvDataModel>::empty());
        assert(spec_records_bytes(l.take(1)) =~= spec_records_bytes(l.take(0)) + spec_record_bytes(
            l[0],
        ));
    } else {
        lemma_records_bytes_take_succ(l.skip(1), k - 1);
        assert(l.take(k + 1)[0] == l[0]);
        assert(l.take(k + 1).skip(1) =~= l.skip(1).take(k));
        assert(l.take(k)[0] == l[0]);
        assert(l.take(k).skip(1) =~= l.skip(1).take(k - 1));
        assert(l.skip(1)[k - 1] == l[k]);
        assert(spec_record_bytes(l[0]) + (spec_records_bytes(l.skip(1).take(k - 1))
            + spec_record_bytes(l[k])) =~= (spec_record_bytes(l[0]) + spec_records_bytes(
            l.skip(1).take(k - 1),
        )) + spec_record_bytes(l[k]));
    }
}

/// The wire form of a connectable undirected advertisement: header byte
/// with PDU type 0 and the TxAdd bit reflecting the address kind, the
/// payload length, the address, then the AD records.
pub open spec fn spec_adv_ind_bytes(a: AddressModel, l: Seq<AdvDataModel>) -> Seq<u8> {
    seq![
        if a.random {
            0x40u8
        } else {
            0u8
        },
        (6 + spec_records_bytes(l).len()) as u8,
    ] + a.bytes + spec_records_bytes(l)
}

/// An advertisement can be written to the wire when every record can and
/// the whole payload fits the one-byte length field.
pub open spec fn spec_adv_ind_encodable(l: Seq<AdvDataModel>) -> bool {
    &&& forall|k: int| 0 <= k < l.len() ==> spec_encodable(#[trigger] l[k])
    &&& 6 + spec_records_bytes(l).len() <= 255
}

impl BluetoothPacket {
    /// Writes a connectable undirected advertisement to the wire. The other
    /// PDU types are never transmitted by this device.
    pub fn to_bytes(self) -> (r: Vec<u8>)
        requires
            self is AdvInd,
            (self.deep_view() matches PacketModel::AdvInd(a, l) && spec_adv_ind_encodable(l)),
        ensures
            (self.deep_view() matches PacketModel::AdvInd(a, l) && r@ == spec_adv_ind_bytes(a, l)),
    {
        match self {
            BluetoothPacket::AdvInd(addr, records) => {
                let ghost a = addr.deep_view();
                let ghost l = records.deep_view();
                let header: u8 = if addr.is_random() {
                    0x40
                } else {
                    0
                };
                let addr_bytes = addr.to_bytes();
                let mut body: Vec<u8> = Vec::new();
                body.push(addr_bytes[0]);
                body.push(addr_bytes[1]);
                body.push(addr_bytes[2]);
                body.push(addr_bytes[3]);
                body.push(addr_bytes[4]);
                body.push(addr_bytes[5]);
                proof {
                    assert(body@ =~= a.bytes);
                    assert(l.take(0) =~= Seq::<AdvDataModel>::empty());
                    assert(body@ =~= a.bytes + spec_records_bytes(l.take(0)));
                }

                let mut k: usize = 0;
                let record_count = records.len();
                while k < record_count
                    invariant
                        k <= record_count,
                        record_count == records@.len(),
                        l == records.deep_view(),
                        spec_adv_ind_encodable(l),
                        body@ == a.bytes + spec_records_bytes(l.take(k as int)),
                        body@.len() == 6 + spec_records_bytes(l.take(k as int)).len(),
                    decreases record_count - k,
                {
                    let record_ref = &records[k];
                    proof {
                        assert(records@[k as int].deep_view() == l[k as int]);
                    }
                    let mut record_bytes = record_ref.to_bytes();
                    proof {
                        lemma_records_bytes_take_succ(l, k as int);
                        lemma_records_bytes_split(l, k as int + 1);
                    }
                    body.append(&mut record_bytes);
                    proof {
                        assert(body@ =~= a.bytes + spec_records_bytes(l.take(k as int + 1)));
                    }
                    k = k + 1;
                }
                proof {
                    assert(l.take(l.len() as int) =~= l);
                }

                let mut r: Vec<u8> = Vec::new();
                r.push(header);
                r.push(body.len() as u8);
                r.append(&mut body);
                proof {
                    assert(r@ =~= spec_adv_ind_bytes(a, l));
                }
                r
            },
            _ => vstd::pervasive::unreached(),
        }
    }
}

/// Writing a connectable undirected advertisement and decoding the
/// resulting buffer yields the packet back: the PDU codec round-trips.
pub proof fn lemma_adv_ind_round_trip(a: AddressModel, l: Seq<AdvDataModel>)
    requires
        a.bytes.len() == 6,
        forall|k: int| 0 <= k < l.len() ==> spec_reparses(#[trigger] l[k]),
        6 + spec_records_bytes(l).len() <= 255,
    ensures
        spec_decode_packet(spec_adv_ind_bytes(a, l)) == Some(PacketModel::AdvInd(a, l)),
{
    let b = spec_adv_ind_bytes(a, l);
    let rb = spec_records_bytes(l);
    let h: u8 = if a.random {
        0x40u8
    } else {
        0u8
    };
    assert(0x40u8 & 0x0f == 0) by (bit_vector);
    assert(0u8 & 0x0f == 0) by (bit_vector);
    assert((0x40u8 & 0x40) != 0) by (bit_vector);
    assert((0u8 & 0x40) == 0) by (bit_vector);
    assert(b[0] == h);
    assert(b[1] as int == 6 + rb.len());
    let len = b[1] as int;
    assert(b.len() == 2 + len);
    let pdu = b.subrange(2, 2 + len);
    assert(pdu =~= a.bytes + rb);
    assert(pdu.subrange(0, 6) =~= a.bytes);
    assert(pdu.skip(6) =~= rb);
    lemma_adv_data_round_trip(l);
    assert(spec_address(pdu.subrange(0, 6), (b[0] & 0x40) != 0) =~= a);
    assert(spec_decode_packet(b) matches Some(p) && p =~= PacketModel::AdvInd(a, l));
}

} // verus!
