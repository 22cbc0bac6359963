//! The GATT-style attribute table: services, characteristics and their
//! values, addressed by dense 1-based 16-bit handles, with range queries,
//! group boundaries, derived access permissions, writes, and the dynamic
//! refresh of battery, date/time and firmware-revision values.

use vstd::prelude::*;

verus! {

/// A 16-bit service UUID known to this device.
#[derive(Debug, Clone, Copy, PartialEq, Eq, Structural)]
#[verifier::ext_equal]
pub enum ServiceUUID {
    Battery,
    CurrentTime,
    GenericAccess,
    DeviceInformation,
}

impl ServiceUUID {
    /// The service UUID's wire form: two bytes, little-endian.
    pub open spec fn spec_data(self) -> Seq<u8> {
        match self {
            ServiceUUID::Battery => seq![0x0Fu8, 0x18u8],
            ServiceUUID::CurrentTime => seq![0x05u8, 0x18u8],
            ServiceUUID::GenericAccess => seq![0x00u8, 0x18u8],
            ServiceUUID::DeviceInformation => seq![0x0Au8, 0x18u8],
        }
    }

    pub fn data(&self) -> (r: Vec<u8>)
        ensures
            r@ == self.spec_data(),
    {
        let r = match self {
            ServiceUUID::Battery => vec![0x0Fu8, 0x18u8],
            ServiceUUID::CurrentTime => vec![0x05u8, 0x18u8],
            ServiceUUID::GenericAccess => vec![0x00u8, 0x18u8],
            ServiceUUID::DeviceInformation => vec![0x0Au8, 0x18u8],
        };
        proof {
            assert(r@ =~= self.spec_data());
        }
        r
    }
}

/// A characteristic UUID known to this device, kept as its 16-bit alias.
#[derive(Debug, Clone, Copy, PartialEq, Eq, Structural)]
#[verifier::ext_equal]
pub enum CharacteristicUUID {
    BatteryLevel,
    DateTime,
    CurrentTime,
    FirmwareRevisionString,
}

impl CharacteristicUUID {
    pub open spec fn spec_uuid16(self) -> u16 {
        match self {
            CharacteristicUUID::BatteryLevel => 0x2a19,
            CharacteristicUUID::DateTime => 0x2a08,
            CharacteristicUUID::CurrentTime => 0x2a2b,
            CharacteristicUUID::FirmwareRevisionString => 0x2a26,
        }
    }

    pub fn uuid16(&self) -> (r: u16)
        ensures
            r == self.spec_uuid16(),
    {
        match self {
            CharacteristicUUID::BatteryLevel => 0x2a19,
            CharacteristicUUID::DateTime => 0x2a08,
            CharacteristicUUID::CurrentTime => 0x2a2b,
            CharacteristicUUID::FirmwareRevisionString => 0x2a26,
        }
    }
}

/// The full 128-bit form of a 16-bit UUID alias, big-endian: the alias sits
/// in bytes two and three of the Bluetooth Base UUID
/// 00000000-0000-1000-8000-00805F9B34FB.
pub open spec fn spec_uuid128_bytes(alias: u16) -> Seq<u8> {
    seq![
        0u8,
        0u8,
        (alias / 256) as u8,
        (alias % 256) as u8,
        0u8,
        0u8,
        0x10u8,
        0u8,
        0x80u8,
        0u8,
        0u8,
        0x80u8,
        0x5Fu8,
        0x9Bu8,
        0x34u8,
        0xFBu8,
    ]
}

/// Relies on rubble's `Uuid128::from(Uuid16)` and its `ToBytes` impl: the
/// alias is zero-extended and placed big-endian into the first four bytes
/// of the Bluetooth Base UUID, and the sixteen bytes are written out
/// unchanged (a sixteen-byte buffer always has room for them).
#[verifier::external_body]
fn uuid16_to_uuid128(alias: u16) -> (r: Vec<u8>)
    ensures
        r@ == spec_uuid128_bytes(alias),
{
    let uuid = rubble::uuid::Uuid128::from(rubble::uuid::Uuid16(alias));
    let mut buffer = [0u8; 16];
    let mut writer = rubble::bytes::ByteWriter::new(&mut buffer);
    let _ = rubble::bytes::ToBytes::to_bytes(&uuid, &mut writer);
    buffer.to_vec()
}

/// A characteristic's properties bitmask, or one named bit of it.
#[derive(Debug, Clone, Copy, PartialEq, Eq, Structural)]
#[verifier::ext_equal]
pub enum CharacteristicProperty {
    Broadcast,
    Read,
    WriteNoResponse,
    Write,
    Notify,
    Indicate,
    AuthenticatedSignedWrites,
    ExtendedProperties,
    Combination(u8),
}

/// Access permissions derived from a characteristic's properties bitmask;
/// never stored, always recomputed.
#[derive(Debug, Clone, Copy, PartialEq, Eq, Structural)]
#[verifier::ext_equal]
pub enum AttributeAccessPermissions {
    Readable,
    Writeable,
    ReadableAndWriteable,
}

/// The permissions a properties bitmask grants: the write bit makes the
/// attribute at least writeable, and the read bit then adds readability;
/// without the write bit it is readable only.
pub open spec fn spec_permissions(mask: u8) -> AttributeAccessPermissions {
    if mask & 0x08 != 0 {
        if mask & 0x02 != 0 {
            AttributeAccessPermissions::ReadableAndWriteable
        } else {
            AttributeAccessPermissions::Writeable
        }
    } else {
        AttributeAccessPermissions::Readable
    }
}

impl CharacteristicProperty {
    pub open spec fn spec_value(self) -> u8 {
        match self {
            CharacteristicProperty::Broadcast => 0x01,
            CharacteristicProperty::Read => 0x02,
            CharacteristicProperty::WriteNoResponse => 0x04,
            CharacteristicProperty::Write => 0x08,
            CharacteristicProperty::Notify => 0x10,
            CharacteristicProperty::Indicate => 0x20,
            CharacteristicProperty::AuthenticatedSignedWrites => 0x40,
            CharacteristicProperty::ExtendedProperties => 0x80,
            CharacteristicProperty::Combination(v) => v,
        }
    }

    /// The bitmask value of this property (one bit per named property).
    pub fn value(&self) -> (r: u8)
        ensures
            r == self.spec_value(),
    {
        match self {
            CharacteristicProperty::Broadcast => 0x01,
            CharacteristicProperty::Read => 0x02,
            CharacteristicProperty::WriteNoResponse => 0x04,
            CharacteristicProperty::Write => 0x08,
            CharacteristicProperty::Notify => 0x10,
            CharacteristicProperty::Indicate => 0x20,
            CharacteristicProperty::AuthenticatedSignedWrites => 0x40,
            CharacteristicProperty::ExtendedProperties => 0x80,
            CharacteristicProperty::Combination(v) => *v,
        }
    }

    /// Whether this bitmask has any of `other`'s bits set.
    pub fn includes(&self, other: CharacteristicProperty) -> (r: bool)
        ensures
            r == ((self.spec_value() & other.spec_value()) != 0),
    {
        (self.value() & other.value()) != 0
    }

    /// The union of two property sets.
    pub fn or(self, rhs: CharacteristicProperty) -> (r: CharacteristicProperty)
        ensures
            r == CharacteristicProperty::Combination(self.spec_value() | rhs.spec_value()),
    {
        CharacteristicProperty::Combination(self.value() | rhs.value())
    }

    /// The access permissions this properties bitmask grants.
    pub fn access_permissions(&self) -> (r: AttributeAccessPermissions)
        ensures
            r == spec_permissions(self.spec_value()),
    {
        if self.includes(CharacteristicProperty::Write) {
            if self.includes(CharacteristicProperty::Read) {
                AttributeAccessPermissions::ReadableAndWriteable
            } else {
                AttributeAccessPermissions::Writeable
            }
        } else {
            AttributeAccessPermissions::Readable
        }
    }
}

/// The type of an attribute as served over the protocol: a 16-bit alias
/// for the declaration types, or a full 128-bit UUID (big-endian bytes)
/// for characteristic values.
#[derive(Debug, PartialEq, Eq)]
pub enum AttributeUuid {
    Uuid16(u16),
    Uuid128(Vec<u8>),
}

/// Mathematical model of an attribute type.
#[verifier::ext_equal]
pub enum AttributeUuidModel {
    Uuid16(u16),
    Uuid128(Seq<u8>),
}

impl DeepView for AttributeUuid {
    type V = AttributeUuidModel;

    open spec fn deep_view(&self) -> AttributeUuidModel {
        match self {
            AttributeUuid::Uuid16(v) => AttributeUuidModel::Uuid16(*v),
            AttributeUuid::Uuid128(b) => AttributeUuidModel::Uuid128(b@),
        }
    }
}

impl Clone for AttributeUuid {
    fn clone(&self) -> (r: Self)
        ensures
            r.deep_view() == self.deep_view(),
    {
        match self {
            AttributeUuid::Uuid16(v) => AttributeUuid::Uuid16(*v),
            AttributeUuid::Uuid128(b) => AttributeUuid::Uuid128(
                vstd::slice::slice_to_vec(b.as_slice()),
            ),
        }
    }
}

/// One attribute of the table.
#[derive(Debug, PartialEq, Eq)]
pub enum BluetoothAttribute {
    PrimaryService(ServiceUUID),
    SecondaryService(ServiceUUID),
    Characteristic(CharacteristicProperty, CharacteristicUUID),
    CharacteristicValue(CharacteristicUUID, Vec<u8>),
}

/// Mathematical model of an attribute.
#[verifier::ext_equal]
pub enum BluetoothAttributeModel {
    PrimaryService(ServiceUUID),
    SecondaryService(ServiceUUID),
    Characteristic(CharacteristicProperty, CharacteristicUUID),
    CharacteristicValue(CharacteristicUUID, Seq<u8>),
}

impl DeepView for BluetoothAttribute {
    type V = BluetoothAttributeModel;

    open spec fn deep_view(&self) -> BluetoothAttributeModel {
        match self {
            BluetoothAttribute::PrimaryService(u) => BluetoothAttributeModel::PrimaryService(*u),
            BluetoothAttribute::SecondaryService(u) => BluetoothAttributeModel::SecondaryService(
                *u,
            ),
            BluetoothAttribute::Characteristic(p, u) => BluetoothAttributeModel::Characteristic(
                *p,
                *u,
            ),
            BluetoothAttribute::CharacteristicValue(u, v) => {
                BluetoothAttributeModel::CharacteristicValue(*u, v@)
            },
        }
    }
}

impl Clone for BluetoothAttribute {
    fn clone(&self) -> (r: Self)
        ensures
            r.deep_view() == self.deep_view(),
    {
        match self {
            BluetoothAttribute::PrimaryService(u) => BluetoothAttribute::PrimaryService(*u),
            BluetoothAttribute::SecondaryService(u) => BluetoothAttribute::SecondaryService(*u),
            BluetoothAttribute::Characteristic(p, u) => BluetoothAttribute::Characteristic(*p, *u),
            BluetoothAttribute::CharacteristicValue(u, v) => {
                BluetoothAttribute::CharacteristicValue(*u, vstd::slice::slice_to_vec(v.as_slice()))
            },
        }
    }
}

/// Whether an attribute starts a group: only the service declarations do.
pub open spec fn spec_is_service(m: BluetoothAttributeModel) -> bool {
    m is PrimaryService || m is SecondaryService
}

/// The protocol-visible type of an attribute: the fixed declaration
/// aliases, or the value's own 128-bit UUID.
pub open spec fn spec_att_type(m: BluetoothAttributeModel) -> AttributeUuidModel {
    match m {
        BluetoothAttributeModel::PrimaryService(_) => AttributeUuidModel::Uuid16(0x2800),
        BluetoothAttributeModel::SecondaryService(_) => AttributeUuidModel::Uuid16(0x2801),
        BluetoothAttributeModel::Characteristic(_, _) => AttributeUuidModel::Uuid16(0x2803),
        BluetoothAttributeModel::CharacteristicValue(u, _) => AttributeUuidModel::Uuid128(
            spec_uuid128_bytes(u.spec_uuid16()),
        ),
    }
}

/// The protocol-visible value bytes of an attribute at `handle`: a service
/// serves its UUID, a characteristic declaration serves its properties,
/// the handle of its value (always the next handle, little-endian) and the
/// value's 128-bit UUID reversed to little-endian, and a value serves its
/// payload.
pub open spec fn spec_att_data(m: BluetoothAttributeModel, handle: u16) -> Seq<u8>
    recommends
        handle < 0xFFFF,
{
    match m {
        BluetoothAttributeModel::PrimaryService(u) => u.spec_data(),
        BluetoothAttributeModel::SecondaryService(u) => u.spec_data(),
        BluetoothAttributeModel::Characteristic(p, u) => seq![
            p.spec_value(),
            ((handle + 1) as u16 % 256) as u8,
            ((handle + 1) as u16 / 256) as u8,
        ] + spec_uuid128_bytes(u.spec_uuid16()).reverse(),
        BluetoothAttributeModel::CharacteristicValue(_, v) => v,
    }
}

impl BluetoothAttribute {
    /// Whether this attribute is a service declaration.
    pub fn is_service(&self) -> (r: bool)
        ensures
            r == spec_is_service(self.deep_view()),
    {
        match self {
            BluetoothAttribute::PrimaryService(_) => true,
            BluetoothAttribute::SecondaryService(_) => true,
            _ => false,
        }
    }

    /// The protocol-visible type of this attribute.
    pub fn att_type(&self) -> (r: AttributeUuid)
        ensures
            r.deep_view() == spec_att_type(self.deep_view()),
    {
        match self {
            BluetoothAttribute::PrimaryService(_) => AttributeUuid::Uuid16(0x2800),
            BluetoothAttribute::SecondaryService(_) => AttributeUuid::Uuid16(0x2801),
            BluetoothAttribute::Characteristic(_, _) => AttributeUuid::Uuid16(0x2803),
            BluetoothAttribute::CharacteristicValue(u, _) => AttributeUuid::Uuid128(
                uuid16_to_uuid128(u.uuid16()),
            ),
        }
    }

    /// The protocol-visible value bytes of this attribute at `handle`.
    pub fn data(&self, handle: u16) -> (r: Vec<u8>)
        requires
            handle < 0xFFFF,
        ensures
            r@ == spec_att_data(self.deep_view(), handle),
    {
        match self {
            BluetoothAttribute::PrimaryService(u) => u.data(),
            BluetoothAttribute::SecondaryService(u) => u.data(),
            BluetoothAttribute::Characteristic(p, u) => {
                let uuid_be = uuid16_to_uuid128(u.uuid16());
                let next_handle: u16 = handle + 1;
                let mut r = vec![p.value(), (next_handle % 256) as u8, (next_handle / 256) as u8];
                let mut k: usize = 16;
                while k > 0
                    invariant
                        k <= 16,
                        uuid_be@ == spec_uuid128_bytes(u.spec_uuid16()),
                        r@.len() == 3 + (16 - k),
                        r@.subrange(0, 3) == seq![
                            p.spec_value(),
                            (next_handle % 256) as u8,
                            (next_handle / 256) as u8,
                        ],
                        forall|j: int| 3 <= j < r@.len() ==> r@[j] == uuid_be@[16 - (j - 3) - 1],
                    decreases k,
                {
                    k = k - 1;
                    let b = uuid_be[k];
                    let ghost old_r = r@;
                    r.push(b);
                    proof {
                        assert(r@.subrange(0, 3) =~= old_r.subrange(0, 3));
                    }
                }
                proof {
                    let expected = spec_att_data(self.deep_view(), handle);
                    assert(spec_uuid128_bytes(u.spec_uuid16()).reverse().len() == 16);
                    assert(r@ =~= expected);
                }
                r
            },
            BluetoothAttribute::CharacteristicValue(_, v) => {
                vstd::slice::slice_to_vec(v.as_slice())
            },
        }
    }
}

/// One attribute as served over the protocol: its type, its handle, and
/// its value bytes, all recomputed from the table whenever it changes.
#[derive(Debug, PartialEq, Eq)]
pub struct ProtocolAttribute {
    pub att_type: AttributeUuid,
    pub handle: u16,
    pub data: Vec<u8>,
}

/// Mathematical model of a protocol-visible attribute.
#[verifier::ext_equal]
pub struct ProtocolAttributeModel {
    pub att_type: AttributeUuidModel,
    pub handle: u16,
    pub data: Seq<u8>,
}

impl DeepView for ProtocolAttribute {
    type V = ProtocolAttributeModel;

    open spec fn deep_view(&self) -> ProtocolAttributeModel {
        ProtocolAttributeModel {
            att_type: self.att_type.deep_view(),
            handle: self.handle,
            data: self.data@,
        }
    }
}

impl Clone for ProtocolAttribute {
    fn clone(&self) -> (r: Self)
        ensures
            r.deep_view() == self.deep_view(),
    {
        ProtocolAttribute {
            att_type: self.att_type.clone(),
            handle: self.handle,
            data: vstd::slice::slice_to_vec(self.data.as_slice()),
        }
    }
}

/// The protocol-visible form of a whole table: handles are dense, 1-based,
/// assigned in declaration order.
pub open spec fn spec_protocol_attributes(attrs: Seq<BluetoothAttributeModel>) -> Seq<
    ProtocolAttributeModel,
>
    recommends
        attrs.len() <= 0xFFFE,
{
    Seq::new(
        attrs.len(),
        |i: int|
            ProtocolAttributeModel {
                att_type: spec_att_type(attrs[i]),
                handle: (i + 1) as u16,
                data: spec_att_data(attrs[i], (i + 1) as u16),
            },
    )
}

/// A date and time as carried by the date/time characteristics: the year
/// little-endian in two bytes, then month, day, hour, minute, second.
#[derive(Debug, Clone, Copy, PartialEq, Eq, Structural)]
pub struct DeviceDateTime {
    pub year: u16,
    pub month: u8,
    pub day: u8,
    pub hour: u8,
    pub minute: u8,
    pub second: u8,
}

/// The seven bytes that carry a date and time on the wire.
pub open spec fn spec_datetime_bytes(t: DeviceDateTime) -> Seq<u8> {
    seq![(t.year % 256) as u8, (t.year / 256) as u8, t.month, t.day, t.hour, t.minute, t.second]
}

/// The date and time read back from at least seven wire bytes.
pub open spec fn spec_datetime_from_bytes(d: Seq<u8>) -> DeviceDateTime
    recommends
        d.len() >= 7,
{
    DeviceDateTime {
        year: (d[1] as int * 256 + d[0] as int) as u16,
        month: d[2],
        day: d[3],
        hour: d[4],
        minute: d[5],
        second: d[6],
    }
}

/// Why a write to the table was rejected. A write lands on a
/// characteristic value's handle; anything else, and any payload whose
/// length does not exactly match the target's layout, is rejected rather
/// than silently ignored.
#[derive(Debug, Clone, Copy, PartialEq, Eq, Structural)]
pub enum WriteError {
    NotWritable,
    InvalidLength,
}

/// The index (into the table) of the first service declaration at or after
/// position `j`, or the table's length if there is none.
pub open spec fn spec_next_service(attrs: Seq<BluetoothAttributeModel>, j: int) -> int
    recommends
        0 <= j <= attrs.len(),
    decreases attrs.len() - j,
{
    if j >= attrs.len() {
        attrs.len() as int
    } else if spec_is_service(attrs[j]) {
        j
    } else {
        spec_next_service(attrs, j + 1)
    }
}

proof fn lemma_next_service_bounds(attrs: Seq<BluetoothAttributeModel>, j: int)
    requires
        0 <= j <= attrs.len(),
    ensures
        j <= spec_next_service(attrs, j) <= attrs.len(),
    decreases attrs.len() - j,
{
    if j < attrs.len() && !spec_is_service(attrs[j]) {
        lemma_next_service_bounds(attrs, j + 1);
    }
}

/// The scan from `j` finds the service at `k` when nothing in between is
/// one.
proof fn lemma_next_service_finds(attrs: Seq<BluetoothAttributeModel>, j: int, k: int)
    requires
        0 <= j <= k < attrs.len(),
        spec_is_service(attrs[k]),
        forall|t: int| j <= t < k ==> !spec_is_service(#[trigger] attrs[t]),
    ensures
        spec_next_service(attrs, j) == k,
    decreases k - j,
{
    if j < k {
        lemma_next_service_finds(attrs, j + 1, k);
    }
}

/// The scan from `j` runs to the table's end when no service follows.
proof fn lemma_next_service_absent(attrs: Seq<BluetoothAttributeModel>, j: int)
    requires
        0 <= j <= attrs.len(),
        forall|t: int| j <= t < attrs.len() ==> !spec_is_service(#[trigger] attrs[t]),
    ensures
        spec_next_service(attrs, j) == attrs.len(),
    decreases attrs.len() - j,
{
    if j < attrs.len() {
        lemma_next_service_absent(attrs, j + 1);
    }
}

/// In a table whose only service declarations sit at handles `h1 < h2`,
/// the group started at `h1` ends at handle `h2 - 1` and the group
/// started at `h2` ends at the table's last handle: combined with
/// `group_end`'s contract, the returned attributes carry exactly those
/// handles.
pub proof fn lemma_two_service_groups(attrs: Seq<BluetoothAttributeModel>, h1: u16, h2: u16)
    requires
        1 <= h1 < h2,
        h2 as int <= attrs.len(),
        spec_is_service(attrs[h1 - 1]),
        spec_is_service(attrs[h2 - 1]),
        forall|j: int|
            0 <= j < attrs.len() && j != h1 - 1 && j != h2 - 1 ==> !spec_is_service(
                #[trigger] attrs[j],
            ),
    ensures
        spec_next_service(attrs, h1 as int) == h2 - 1,
        spec_next_service(attrs, h2 as int) == attrs.len(),
{
    lemma_next_service_finds(attrs, h1 as int, h2 - 1);
    lemma_next_service_absent(attrs, h2 as int);
}

/// The permissions the table grants at `handle`: handle 1 (the first
/// service declaration) and every other service declaration is readable; a
/// characteristic declaration derives permissions from its bitmask. A
/// write aimed at a value handle is judged by the declaration one handle
/// earlier, which is where the attribute at `handle - 1` in this 0-based
/// lookup comes from.
pub open spec fn spec_attr_access_permissions(
    attrs: Seq<BluetoothAttributeModel>,
    handle: u16,
) -> AttributeAccessPermissions
    recommends
        1 <= handle,
        handle as int <= attrs.len() + 1,
{
    if handle < 2 {
        AttributeAccessPermissions::Readable
    } else {
        match attrs[handle - 2] {
            BluetoothAttributeModel::Characteristic(p, _) => spec_permissions(p.spec_value()),
            _ => AttributeAccessPermissions::Readable,
        }
    }
}

/// An attribute after one data refresh: every characteristic value is
/// recomputed from its source (battery percentage, current date and time,
/// firmware revision), and everything else is untouched.
pub open spec fn spec_updated_attr(
    m: BluetoothAttributeModel,
    battery_percentage: u8,
    now: DeviceDateTime,
    firmware_version: Seq<u8>,
) -> BluetoothAttributeModel {
    match m {
        BluetoothAttributeModel::CharacteristicValue(u, _) => {
            match u {
                CharacteristicUUID::BatteryLevel => BluetoothAttributeModel::CharacteristicValue(
                    u,
                    seq![battery_percentage],
                ),
                CharacteristicUUID::DateTime => BluetoothAttributeModel::CharacteristicValue(
                    u,
                    spec_datetime_bytes(now),
                ),
                CharacteristicUUID::CurrentTime => BluetoothAttributeModel::CharacteristicValue(
                    u,
                    spec_datetime_bytes(now) + seq![0u8, 0u8, 0u8],
                ),
                CharacteristicUUID::FirmwareRevisionString => {
                    BluetoothAttributeModel::CharacteristicValue(u, firmware_version)
                },
            }
        },
        _ => m,
    }
}

/// The attributes served when a range query names `start..=end` (1-based
/// handles): the table indices from `start - 1` through `end - 1`, the end
/// clamped to the last valid index, in ascending handle order. A start
/// beyond the table yields no attributes; that is not an error.
pub open spec fn spec_attrs_in_range(
    attrs: Seq<BluetoothAttributeModel>,
    start: u16,
    end: u16,
) -> Seq<ProtocolAttributeModel>
    recommends
        1 <= start <= end,
        attrs.len() <= 0xFFFE,
{
    let s = start - 1;
    if s >= attrs.len() {
        Seq::empty()
    } else {
        let e = if end - 1 < attrs.len() - 1 {
            end - 1
        } else {
            attrs.len() - 1
        };
        spec_protocol_attributes(attrs).subrange(s as int, e as int + 1)
    }
}

/// The attribute table and the protocol-visible list regenerated from it.
pub struct BluetoothAttributeProvider {
    attributes: Vec<BluetoothAttribute>,
    protocol_attributes: Vec<ProtocolAttribute>,
}

impl BluetoothAttributeProvider {
    /// The table's attributes, in handle order.
    pub closed spec fn attrs(&self) -> Seq<BluetoothAttributeModel> {
        self.attributes.deep_view()
    }

    /// The protocol-visible attribute list.
    pub closed spec fn protocol(&self) -> Seq<ProtocolAttributeModel> {
        self.protocol_attributes.deep_view()
    }

    /// Handles fit the 16-bit handle space and the protocol list is the
    /// table's current protocol-visible form.
    pub open spec fn wf(&self) -> bool {
        &&& self.attrs().len() <= 0xFFFE
        &&& self.protocol() == spec_protocol_attributes(self.attrs())
    }

    /// Builds the protocol-visible list of a table.
    fn build_protocol(attributes: &Vec<BluetoothAttribute>) -> (r: Vec<ProtocolAttribute>)
        requires
            attributes.deep_view().len() <= 0xFFFE,
        ensures
            r.deep_view() == spec_protocol_attributes(attributes.deep_view()),
    {
        let mut r: Vec<ProtocolAttribute> = Vec::new();
        let count = attributes.len();
        let mut i: usize = 0;
        while i < count
            invariant
                i <= count,
                count == attributes@.len(),
                attributes.deep_view().len() <= 0xFFFE,
                r.deep_view() =~~= spec_protocol_attributes(attributes.deep_view()).take(i as int),
            decreases count - i,
        {
            let handle: u16 = (i as u16) + 1;
            let attribute = &attributes[i];
            let entry = ProtocolAttribute {
                att_type: attribute.att_type(),
                handle,
                data: attribute.data(handle),
            };
            proof {
                assert(attributes@[i as int].deep_view() == attributes.deep_view()[i as int]);
                assert(entry.deep_view() =~~= spec_protocol_attributes(attributes.deep_view())[
                    i as int]);
            }
            let ghost prev = r.deep_view();
            r.push(entry);
            proof {
                assert(r.deep_view() =~~= prev + seq![entry.deep_view()]);
                assert(prev + seq![entry.deep_view()] =~~= spec_protocol_attributes(
                    attributes.deep_view(),
                ).take(i as int + 1));
            }
            i = i + 1;
        }
        proof {
            assert(spec_protocol_attributes(attributes.deep_view()).take(count as int)
                =~= spec_protocol_attributes(attributes.deep_view()));
        }
        r
    }

    /// Regenerates the protocol-visible list; required after any change to
    /// the table so subsequent reads observe it.
    fn update_protocol_attributes(&mut self)
        requires
            old(self).attrs().len() <= 0xFFFE,
        ensures
            final(self).attrs() == old(self).attrs(),
            final(self).wf(),
    {
        self.protocol_attributes = Self::build_protocol(&self.attributes);
    }

    /// A provider over a given table.
    pub fn from_attributes(attributes: Vec<BluetoothAttribute>) -> (r: BluetoothAttributeProvider)
        requires
            attributes.deep_view().len() <= 0xFFFE,
        ensures
            r.attrs() == attributes.deep_view(),
            r.wf(),
    {
        let protocol_attributes = Self::build_protocol(&attributes);
        BluetoothAttributeProvider { attributes, protocol_attributes }
    }

    /// The device's fixed table: a battery service with a read-only level,
    /// a current-time service with writable date/time fields, and a device
    /// information service with the firmware revision.
    pub fn new() -> (r: BluetoothAttributeProvider)
        ensures
            r.wf(),
            r.attrs() == spec_initial_attributes(),
    {
        let attributes: Vec<BluetoothAttribute> = vec![
            BluetoothAttribute::PrimaryService(ServiceUUID::Battery),
            BluetoothAttribute::Characteristic(
                CharacteristicProperty::Read,
                CharacteristicUUID::BatteryLevel,
            ),
            BluetoothAttribute::CharacteristicValue(CharacteristicUUID::BatteryLevel, vec![0u8]),
            BluetoothAttribute::PrimaryService(ServiceUUID::CurrentTime),
            BluetoothAttribute::Characteristic(
                CharacteristicProperty::Read.or(CharacteristicProperty::Write),
                CharacteristicUUID::DateTime,
            ),
            BluetoothAttribute::CharacteristicValue(
                CharacteristicUUID::DateTime,
                vec![0u8, 0u8, 0u8, 0u8, 0u8, 0u8, 0u8],
            ),
            BluetoothAttribute::Characteristic(
                CharacteristicProperty::Read.or(CharacteristicProperty::Write),
                CharacteristicUUID::CurrentTime,
            ),
            BluetoothAttribute::CharacteristicValue(
                CharacteristicUUID::CurrentTime,
                vec![0u8, 0u8, 0u8, 0u8, 0u8, 0u8, 0u8, 0u8, 0u8],
            ),
            BluetoothAttribute::PrimaryService(ServiceUUID::DeviceInformation),
            BluetoothAttribute::Characteristic(
                CharacteristicProperty::Read,
                CharacteristicUUID::FirmwareRevisionString,
            ),
            // "unknown", as ASCII bytes, until the boot image is read.
            BluetoothAttribute::CharacteristicValue(
                CharacteristicUUID::FirmwareRevisionString,
                vec![117u8, 110u8, 107u8, 110u8, 111u8, 119u8, 110u8],
            ),
        ];
        proof {
            assert(0x02u8 | 0x08u8 == 0x0Au8) by (bit_vector);
            assert(attributes.deep_view() =~~= spec_initial_attributes());
        }
        let protocol_attributes = Self::build_protocol(&attributes);
        BluetoothAttributeProvider { attributes, protocol_attributes }
    }

    /// The attributes in a 1-based handle range, ascending. The visitor
    /// pattern of the protocol server maps to the returned list: one
    /// visit per element, in order.
    pub fn for_attrs_in_range(&self, start: u16, end: u16) -> (r: Vec<ProtocolAttribute>)
        requires
            self.wf(),
            1 <= start <= end,
        ensures
            r.deep_view() == spec_attrs_in_range(self.attrs(), start, end),
            r@.len() == if start - 1 >= self.attrs().len() {
                0int
            } else {
                (if end - 1 < self.attrs().len() - 1 {
                    end - 1
                } else {
                    self.attrs().len() - 1
                }) - (start - 1) + 1
            },
    {
        let count = self.attributes.len();
        let s = (start - 1) as usize;
        let mut r: Vec<ProtocolAttribute> = Vec::new();
        proof {
            assert(count == self.attrs().len());
        }
        if s >= count {
            proof {
                assert(r.deep_view() =~~= spec_attrs_in_range(self.attrs(), start, end));
            }
            return r;
        }
        let e = if (end as usize) - 1 < count - 1 {
            (end as usize) - 1
        } else {
            count - 1
        };
        let mut k = s;
        while k <= e
            invariant
                self.wf(),
                s <= k <= e + 1,
                e < count,
                count == self.attrs().len(),
                r.deep_view() =~~= spec_protocol_attributes(self.attrs()).subrange(
                    s as int,
                    k as int,
                ),
            decreases e + 1 - k,
        {
            proof {
                assert(self.protocol_attributes.deep_view().len() == self.protocol_attributes@.len());
                assert(self.protocol().len() == self.attrs().len());
                assert(self.protocol_attributes@.len() == self.attrs().len());
                assert(self.protocol_attributes@[k as int].deep_view() == self.protocol()[
                    k as int]);
            }
            let entry = self.protocol_attributes[k].clone();
            let ghost prev = r.deep_view();
            r.push(entry);
            proof {
                assert(r.deep_view() =~~= prev + seq![entry.deep_view()]);
                assert(prev + seq![entry.deep_view()] =~~= spec_protocol_attributes(
                    self.attrs(),
                ).subrange(s as int, k as int + 1));
            }
            k = k + 1;
        }
        proof {
            assert(r.deep_view() =~~= spec_attrs_in_range(self.attrs(), start, end));
        }
        r
    }

    /// True only for the service declaration types: they start groups. A
    /// full 128-bit UUID counts when it is the expansion of one of the two
    /// 16-bit aliases.
    pub fn is_grouping_attr(&self, uuid: &AttributeUuid) -> (r: bool)
        ensures
            r == spec_is_grouping_uuid(uuid.deep_view()),
    {
        match uuid {
            AttributeUuid::Uuid16(v) => *v == 0x2800 || *v == 0x2801,
            AttributeUuid::Uuid128(b) => {
                let primary = uuid16_to_uuid128(0x2800);
                let secondary = uuid16_to_uuid128(0x2801);
                bytes_equal(b, &primary) || bytes_equal(b, &secondary)
            },
        }
    }

    /// Where the group started by the service declaration at `handle`
    /// ends: the attribute just before the next service declaration, or
    /// the table's last attribute if no further service follows. A handle
    /// that names no service declaration starts no group.
    pub fn group_end(&self, handle: u16) -> (r: Option<ProtocolAttribute>)
        requires
            self.wf(),
            1 <= handle,
            handle as int <= self.attrs().len(),
        ensures
            (r is Some) <==> spec_is_service(self.attrs()[handle - 1]),
            r matches Some(a) ==> a.deep_view() == spec_protocol_attributes(self.attrs())[
                spec_next_service(self.attrs(), handle as int) - 1],
    {
        let idx = (handle - 1) as usize;
        proof {
            assert(self.attributes@[idx as int].deep_view() == self.attrs()[idx as int]);
        }
        let starts_group = self.attributes[idx].is_service();
        if !starts_group {
            return None;
        }

        let count = self.attributes.len();
        let mut j = idx + 1;
        proof {
            lemma_next_service_bounds(self.attrs(), j as int);
        }
        while j < count
            invariant
                self.wf(),
                1 <= handle,
                handle as int <= j <= count,
                count == self.attrs().len(),
                spec_is_service(self.attrs()[handle - 1]),
                spec_next_service(self.attrs(), handle as int) == spec_next_service(
                    self.attrs(),
                    j as int,
                ),
            decreases count - j,
        {
            proof {
                assert(self.attributes@[j as int].deep_view() == self.attrs()[j as int]);
            }
            let found = self.attributes[j].is_service();
            if found {
                proof {
                    assert(spec_next_service(self.attrs(), j as int) == j as int);
                    assert(self.protocol_attributes.deep_view().len() == self.protocol_attributes@.len());
                    assert(self.protocol().len() == self.attrs().len());
                    assert(self.protocol_attributes@.len() == self.attrs().len());
                    assert(self.protocol_attributes@[j - 1].deep_view() == self.protocol()[j - 1]);
                }
                return Some(self.protocol_attributes[j - 1].clone());
            }
            j = j + 1;
        }
        proof {
            assert(spec_next_service(self.attrs(), count as int) == count as int);
            assert(self.protocol_attributes.deep_view().len() == self.protocol_attributes@.len());
            assert(self.protocol().len() == self.attrs().len());
            assert(self.protocol_attributes@.len() == self.attrs().len());
            assert(self.protocol_attributes@[count - 1].deep_view() == self.protocol()[count - 1]);
        }
        Some(self.protocol_attributes[count - 1].clone())
    }

    /// The permissions the table grants at `handle` (see
    /// `spec_attr_access_permissions`).
    pub fn attr_access_permissions(&self, handle: u16) -> (r: AttributeAccessPermissions)
        requires
            self.wf(),
            1 <= handle,
            handle as int <= self.attrs().len() + 1,
        ensures
            r == spec_attr_access_permissions(self.attrs(), handle),
    {
        if handle < 2 {
            return AttributeAccessPermissions::Readable;
        }
        proof {
            assert(self.attributes@[handle - 2].deep_view() == self.attrs()[handle - 2]);
        }
        match &self.attributes[(handle as usize) - 2] {
            BluetoothAttribute::Characteristic(properties, _) => properties.access_permissions(),
            _ => AttributeAccessPermissions::Readable,
        }
    }

    /// Replaces the attribute at a 0-based index.
    fn replace_at(&mut self, i: usize, attribute: BluetoothAttribute)
        requires
            i < old(self).attrs().len(),
        ensures
            final(self).attrs() == old(self).attrs().update(i as int, attribute.deep_view()),
            final(self).protocol() == old(self).protocol(),
    {
        let _ = self.attributes.remove(i);
        self.attributes.insert(i, attribute);
        proof {
            assert(self.attributes@ =~= old(self).attributes@.update(
                i as int,
                self.attributes@[i as int],
            ));
            assert(self.attrs() =~~= old(self).attrs().update(
                i as int,
                self.attributes@[i as int].deep_view(),
            ));
        }
    }

    /// A write aimed at `handle`. Only the date/time characteristic values
    /// accept writes, and only at their exact wire length (seven bytes for
    /// the date/time field, ten for current time); a malformed write is
    /// rejected explicitly rather than silently ignored. An accepted write
    /// replaces the stored payload, regenerates the protocol-visible list,
    /// and hands back the written date and time so the device clock can be
    /// scheduled for an update.
    pub fn write_attr(&mut self, handle: u16, data: &[u8]) -> (r: Result<
        DeviceDateTime,
        WriteError,
    >)
        requires
            old(self).wf(),
            1 <= handle,
            handle as int <= old(self).attrs().len(),
        ensures
            final(self).wf(),
            ({
                let target = old(self).attrs()[handle - 1];
                if target matches BluetoothAttributeModel::CharacteristicValue(
                    CharacteristicUUID::DateTime,
                    _,
                ) {
                    if data@.len() == 7 {
                        &&& final(self).attrs() == old(self).attrs().update(
                            handle - 1,
                            BluetoothAttributeModel::CharacteristicValue(
                                CharacteristicUUID::DateTime,
                                data@,
                            ),
                        )
                        &&& r == Ok::<DeviceDateTime, WriteError>(spec_datetime_from_bytes(data@))
                    } else {
                        &&& final(self).attrs() == old(self).attrs()
                        &&& r == Err::<DeviceDateTime, WriteError>(WriteError::InvalidLength)
                    }
                } else if target matches BluetoothAttributeModel::CharacteristicValue(
                    CharacteristicUUID::CurrentTime,
                    _,
                ) {
                    if data@.len() == 10 {
                        &&& final(self).attrs() == old(self).attrs().update(
                            handle - 1,
                            BluetoothAttributeModel::CharacteristicValue(
                                CharacteristicUUID::CurrentTime,
                                data@,
                            ),
                        )
                        &&& r == Ok::<DeviceDateTime, WriteError>(spec_datetime_from_bytes(data@))
                    } else {
                        &&& final(self).attrs() == old(self).attrs()
                        &&& r == Err::<DeviceDateTime, WriteError>(WriteError::InvalidLength)
                    }
                } else {
                    &&& final(self).attrs() == old(self).attrs()
                    &&& r == Err::<DeviceDateTime, WriteError>(WriteError::NotWritable)
                }
            }),
    {
        let i = (handle as usize) - 1;
        proof {
            assert(self.attributes@[i as int].deep_view() == self.attrs()[i as int]);
        }
        let target: Option<(CharacteristicUUID, usize)> = match &self.attributes[i] {
            BluetoothAttribute::CharacteristicValue(CharacteristicUUID::DateTime, _) => Some(
                (CharacteristicUUID::DateTime, 7),
            ),
            BluetoothAttribute::CharacteristicValue(CharacteristicUUID::CurrentTime, _) => Some(
                (CharacteristicUUID::CurrentTime, 10),
            ),
            _ => None,
        };
        let (uuid, expected_len) = match target {
            Some(t) => t,
            None => {
                return Err(WriteError::NotWritable);
            },
        };
        if data.len() != expected_len {
            return Err(WriteError::InvalidLength);
        }
        self.replace_at(i, BluetoothAttribute::CharacteristicValue(
            uuid,
            vstd::slice::slice_to_vec(data),
        ));
        self.update_protocol_attributes();
        let year: u16 = (data[1] as u16) * 256 + (data[0] as u16);
        Ok(DeviceDateTime {
            year,
            month: data[2],
            day: data[3],
            hour: data[4],
            minute: data[5],
            second: data[6],
        })
    }

    /// Recomputes every dynamic characteristic value from its source —
    /// battery percentage, current date and time, firmware revision — and
    /// regenerates the protocol-visible list. Called whenever an
    /// underlying source changes; the table does not observe sources
    /// itself.
    pub fn update_data(
        &mut self,
        battery_percentage: u8,
        now: &DeviceDateTime,
        firmware_version: &[u8],
    )
        requires
            old(self).wf(),
        ensures
            final(self).wf(),
            final(self).attrs() == Seq::new(
                old(self).attrs().len(),
                |i: int|
                    spec_updated_attr(
                        old(self).attrs()[i],
                        battery_percentage,
                        *now,
                        firmware_version@,
                    ),
            ),
    {
        let count = self.attributes.len();
        let mut i: usize = 0;
        while i < count
            invariant
                i <= count,
                count == self.attrs().len(),
                self.attrs().len() == old(self).attrs().len(),
                self.attrs().len() <= 0xFFFE,
                forall|j: int|
                    0 <= j < i ==> self.attrs()[j] == spec_updated_attr(
                        old(self).attrs()[j],
                        battery_percentage,
                        *now,
                        #[trigger] firmware_version@,
                    ),
                forall|j: int| i <= j < count ==> self.attrs()[j] == old(self).attrs()[j],
            decreases count - i,
        {
            proof {
                assert(self.attributes@[i as int].deep_view() == self.attrs()[i as int]);
            }
            let replacement: Option<BluetoothAttribute> = match &self.attributes[i] {
                BluetoothAttribute::CharacteristicValue(u, _) => {
                    match u {
                        CharacteristicUUID::BatteryLevel => Some(
                            BluetoothAttribute::CharacteristicValue(
                                CharacteristicUUID::BatteryLevel,
                                vec![battery_percentage],
                            ),
                        ),
                        CharacteristicUUID::DateTime => Some(
                            BluetoothAttribute::CharacteristicValue(
                                CharacteristicUUID::DateTime,
                                datetime_bytes(now),
                            ),
                        ),
                        CharacteristicUUID::CurrentTime => {
                            let mut b = datetime_bytes(now);
                            b.push(0);
                            b.push(0);
                            b.push(0);
                            Some(
                                BluetoothAttribute::CharacteristicValue(
                                    CharacteristicUUID::CurrentTime,
                                    b,
                                ),
                            )
                        },
                        CharacteristicUUID::FirmwareRevisionString => Some(
                            BluetoothAttribute::CharacteristicValue(
                                CharacteristicUUID::FirmwareRevisionString,
                                vstd::slice::slice_to_vec(firmware_version),
                            ),
                        ),
                    }
                },
                _ => None,
            };
            match replacement {
                Some(attribute) => {
                    proof {
                        assert(attribute.deep_view() == spec_updated_attr(
                            old(self).attrs()[i as int],
                            battery_percentage,
                            *now,
                            firmware_version@,
                        ));
                    }
                    self.replace_at(i, attribute);
                },
                None => {
                    proof {
                        assert(self.attrs()[i as int] == spec_updated_attr(
                            old(self).attrs()[i as int],
                            battery_percentage,
                            *now,
                            firmware_version@,
                        ));
                    }
                },
            }
            i = i + 1;
        }
        self.update_protocol_attributes();
        proof {
            assert(self.attrs() =~~= Seq::new(
                old(self).attrs().len(),
                |i: int|
                    spec_updated_attr(
                        old(self).attrs()[i],
                        battery_percentage,
                        *now,
                        firmware_version@,
                    ),
            ));
        }
    }
}

/// The seven wire bytes of a date and time.
fn datetime_bytes(t: &DeviceDateTime) -> (r: Vec<u8>)
    ensures
        r@ == spec_datetime_bytes(*t),
{
    let r = vec![
        (t.year % 256) as u8,
        (t.year / 256) as u8,
        t.month,
        t.day,
        t.hour,
        t.minute,
        t.second,
    ];
    proof {
        assert(r@ =~= spec_datetime_bytes(*t));
    }
    r
}

/// Whether a protocol UUID names a group-starting declaration type: the
/// primary or secondary service alias, as the 16-bit alias or expanded to
/// its 128-bit form.
pub open spec fn spec_is_grouping_uuid(u: AttributeUuidModel) -> bool {
    ||| u == AttributeUuidModel::Uuid16(0x2800)
    ||| u == AttributeUuidModel::Uuid16(0x2801)
    ||| u == AttributeUuidModel::Uuid128(spec_uuid128_bytes(0x2800))
    ||| u == AttributeUuidModel::Uuid128(spec_uuid128_bytes(0x2801))
}

/// Byte-for-byte equality of two buffers.
fn bytes_equal(a: &Vec<u8>, b: &Vec<u8>) -> (r: bool)
    ensures
        r == (a@ == b@),
{
    if a.len() != b.len() {
        return false;
    }
    let mut i: usize = 0;
    while i < a.len()
        invariant
            i <= a@.len(),
            a@.len() == b@.len(),
            forall|j: int| 0 <= j < i ==> a@[j] == b@[j],
        decreases a@.len() - i,
    {
        if a[i] != b[i] {
            return false;
        }
        i = i + 1;
    }
    proof {
        assert(a@ =~= b@);
    }
    true
}

/// The fixed initial table.
pub open spec fn spec_initial_attributes() -> Seq<BluetoothAttributeModel> {
    seq![
        BluetoothAttributeModel::PrimaryService(ServiceUUID::Battery),
        BluetoothAttributeModel::Characteristic(
            CharacteristicProperty::Read,
            CharacteristicUUID::BatteryLevel,
        ),
        BluetoothAttributeModel::CharacteristicValue(CharacteristicUUID::BatteryLevel, seq![0u8]),
        BluetoothAttributeModel::PrimaryService(ServiceUUID::CurrentTime),
        BluetoothAttributeModel::Characteristic(
            CharacteristicProperty::Combination(0x0A),
            CharacteristicUUID::DateTime,
        ),
        BluetoothAttributeModel::CharacteristicValue(
            CharacteristicUUID::DateTime,
            seq![0u8, 0u8, 0u8, 0u8, 0u8, 0u8, 0u8],
        ),
        BluetoothAttributeModel::Characteristic(
            CharacteristicProperty::Combination(0x0A),
            CharacteristicUUID::CurrentTime,
        ),
        BluetoothAttributeModel::CharacteristicValue(
            CharacteristicUUID::CurrentTime,
            seq![0u8, 0u8, 0u8, 0u8, 0u8, 0u8, 0u8, 0u8, 0u8],
        ),
        BluetoothAttributeModel::PrimaryService(ServiceUUID::DeviceInformation),
        BluetoothAttributeModel::Characteristic(
            CharacteristicProperty::Read,
            CharacteristicUUID::FirmwareRevisionString,
        ),
        BluetoothAttributeModel::CharacteristicValue(
            CharacteristicUUID::FirmwareRevisionString,
            seq![117u8, 110u8, 107u8, 110u8, 111u8, 119u8, 110u8],
        ),
    ]
}

} // verus!
