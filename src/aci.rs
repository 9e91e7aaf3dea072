//! The commands this library hands to the stack, and the replies it reads back.
use vstd::prelude::*;

verus! {

/// Largest value length that one `aci_gatt_update_char_value` call carries.
pub const MAX_CHUNK: u16 = 255;

/// The UUID field of `aci_gatt_add_service`, as the bytes the stack reads.
#[derive(Copy, Clone, Debug, PartialEq, Eq)]
pub struct ServiceUuid {
    pub bytes: [u8; 16],
}

/// The UUID field of `aci_gatt_add_char`, as the bytes the stack reads.
#[derive(Copy, Clone, Debug, PartialEq, Eq)]
pub struct CharUuid {
    pub bytes: [u8; 16],
}

/// A 16-bit UUID laid out in the 16-byte field: little-endian in the first two bytes, zero after.
pub open spec fn uuid16_field(uuid16: u16) -> Seq<u8> {
    Seq::new(
        16,
        |i: int|
            if i == 0 {
                (uuid16 % 256) as u8
            } else if i == 1 {
                (uuid16 / 256) as u8
            } else {
                0u8
            },
    )
}

fn uuid16_bytes(uuid16: u16) -> (r: [u8; 16])
    ensures
        r@ == uuid16_field(uuid16),
{
    let mut bytes = [0u8; 16];
    bytes[0] = (uuid16 % 256) as u8;
    bytes[1] = (uuid16 / 256) as u8;
    assert(bytes@ =~= uuid16_field(uuid16));
    bytes
}

/// Packs a 16-bit service UUID into the stack's UUID field.
pub fn make_service_uuid16(uuid16: u16) -> (r: ServiceUuid)
    ensures
        r.bytes@ == uuid16_field(uuid16),
{
    ServiceUuid { bytes: uuid16_bytes(uuid16) }
}

/// Packs a 16-bit characteristic UUID into the stack's UUID field.
pub fn make_char_uuid16(uuid16: u16) -> (r: CharUuid)
    ensures
        r.bytes@ == uuid16_field(uuid16),
{
    CharUuid { bytes: uuid16_bytes(uuid16) }
}

/// Packs a 128-bit service UUID (bytes in the order the stack reads them).
pub fn make_service_uuid128(uuid128: &[u8; 16]) -> (r: ServiceUuid)
    ensures
        r.bytes@ == uuid128@,
{
    ServiceUuid { bytes: *uuid128 }
}

/// Packs a 128-bit characteristic UUID (bytes in the order the stack reads them).
pub fn make_char_uuid128(uuid128: &[u8; 16]) -> (r: CharUuid)
    ensures
        r.bytes@ == uuid128@,
{
    CharUuid { bytes: *uuid128 }
}

/// One command of the stack's ACI/HCI interface, with every argument it is given.
///
/// Byte strings hold exactly the bytes the stack reads; their length is the length argument
/// of the call (at most 255, see `CommandModel::fits`).
#[allow(inconsistent_fields)]
#[derive(Clone, Debug, PartialEq, Eq)]
pub enum AciCommand {
    /// `aci_gatt_init`.
    GattInit,
    /// `aci_gap_init`; its outputs are the GAP service handle, the device name and the
    /// appearance characteristic handles.
    GapInit { role: u8, privacy_enabled: u8, device_name_char_len: u8 },
    /// `aci_gatt_add_service`; its output is the service handle.
    GattAddService { uuid_type: u8, uuid: ServiceUuid, service_type: u8, max_attr_records: u8 },
    /// `aci_gatt_add_char`; its output is the characteristic declaration handle.
    GattAddChar {
        service_handle: u16,
        uuid_type: u8,
        uuid: CharUuid,
        value_len: u16,
        props: u8,
        perm: u8,
        evt_mask: u8,
        enc_key_size: u8,
        is_variable: u8,
    },
    /// `aci_gatt_update_char_value`.
    GattUpdateCharValue { service_handle: u16, char_handle: u16, offset: u8, value: Vec<u8> },
    /// `aci_gatt_update_char_value_ext`.
    GattUpdateCharValueExt {
        service_handle: u16,
        char_handle: u16,
        update_type: u8,
        total_len: u16,
        offset: u16,
        value: Vec<u8>,
    },
    /// `aci_gap_set_discoverable`.
    GapSetDiscoverable {
        adv_type: u8,
        interval_min: u16,
        interval_max: u16,
        own_addr_type: u8,
        filter_policy: u8,
        local_name: Vec<u8>,
        service_uuids: Vec<u8>,
        conn_interval_min: u16,
        conn_interval_max: u16,
    },
    /// `hci_le_set_advertising_enable`.
    SetAdvertisingEnable { enable: u8 },
    /// `hci_le_set_advertising_data`.
    SetAdvertisingData { data: Vec<u8> },
}

/// The mathematical model of an `AciCommand`: byte strings and UUID fields as sequences.
#[allow(inconsistent_fields)]
pub ghost enum CommandModel {
    GattInit,
    GapInit { role: u8, privacy_enabled: u8, device_name_char_len: u8 },
    GattAddService { uuid_type: u8, uuid: Seq<u8>, service_type: u8, max_attr_records: u8 },
    GattAddChar {
        service_handle: u16,
        uuid_type: u8,
        uuid: Seq<u8>,
        value_len: u16,
        props: u8,
        perm: u8,
        evt_mask: u8,
        enc_key_size: u8,
        is_variable: u8,
    },
    GattUpdateCharValue { service_handle: u16, char_handle: u16, offset: u8, value: Seq<u8> },
    GattUpdateCharValueExt {
        service_handle: u16,
        char_handle: u16,
        update_type: u8,
        total_len: u16,
        offset: u16,
        value: Seq<u8>,
    },
    GapSetDiscoverable {
        adv_type: u8,
        interval_min: u16,
        interval_max: u16,
        own_addr_type: u8,
        filter_policy: u8,
        local_name: Seq<u8>,
        service_uuids: Seq<u8>,
        conn_interval_min: u16,
        conn_interval_max: u16,
    },
    SetAdvertisingEnable { enable: u8 },
    SetAdvertisingData { data: Seq<u8> },
}

impl CommandModel {
    /// Every byte string fits the 8-bit length argument that carries it.
    pub open spec fn fits(self) -> bool {
        match self {
            CommandModel::GattUpdateCharValue { value, .. } => value.len() <= 255,
            CommandModel::GattUpdateCharValueExt { value, .. } => value.len() <= 255,
            CommandModel::GapSetDiscoverable { local_name, service_uuids, .. } => local_name.len()
                <= 255 && service_uuids.len() <= 255,
            CommandModel::SetAdvertisingData { data } => data.len() <= 255,
            _ => true,
        }
    }
}

impl View for AciCommand {
    type V = CommandModel;

    open spec fn view(&self) -> CommandModel {
        match *self {
            AciCommand::GattInit => CommandModel::GattInit,
            AciCommand::GapInit { role, privacy_enabled, device_name_char_len } =>
                CommandModel::GapInit { role, privacy_enabled, device_name_char_len },
            AciCommand::GattAddService { uuid_type, uuid, service_type, max_attr_records } =>
                CommandModel::GattAddService {
                uuid_type,
                uuid: uuid.bytes@,
                service_type,
                max_attr_records,
            },
            AciCommand::GattAddChar {
                service_handle,
                uuid_type,
                uuid,
                value_len,
                props,
                perm,
                evt_mask,
                enc_key_size,
                is_variable,
            } => CommandModel::GattAddChar {
                service_handle,
                uuid_type,
                uuid: uuid.bytes@,
                value_len,
                props,
                perm,
                evt_mask,
                enc_key_size,
                is_variable,
            },
            AciCommand::GattUpdateCharValue { service_handle, char_handle, offset, value } =>
                CommandModel::GattUpdateCharValue {
                service_handle,
                char_handle,
                offset,
                value: value@,
            },
            AciCommand::GattUpdateCharValueExt {
                service_handle,
                char_handle,
                update_type,
                total_len,
                offset,
                value,
            } => CommandModel::GattUpdateCharValueExt {
                service_handle,
                char_handle,
                update_type,
                total_len,
                offset,
                value: value@,
            },
            AciCommand::GapSetDiscoverable {
                adv_type,
                interval_min,
                interval_max,
                own_addr_type,
                filter_policy,
                local_name,
                service_uuids,
                conn_interval_min,
                conn_interval_max,
            } => CommandModel::GapSetDiscoverable {
                adv_type,
                interval_min,
                interval_max,
                own_addr_type,
                filter_policy,
                local_name: local_name@,
                service_uuids: service_uuids@,
                conn_interval_min,
                conn_interval_max,
            },
            AciCommand::SetAdvertisingEnable { enable } => CommandModel::SetAdvertisingEnable {
                enable,
            },
            AciCommand::SetAdvertisingData { data } => CommandModel::SetAdvertisingData {
                data: data@,
            },
        }
    }
}

/// What the stack hands back for one command: its return code and its output handles, in the
/// order the command lists them (unused ones are zero).
#[derive(Copy, Clone, Debug, PartialEq, Eq)]
pub struct Reply {
    pub status: i32,
    pub handles: [u16; 3],
}

/// Where a multi-command operation stands: a command to issue next, or the final outcome.
#[derive(Debug, PartialEq, Eq)]
pub enum Step<T> {
    Issue(AciCommand),
    Done(crate::status::BleResult<T>),
}

/// The first `n` bytes of `s`, as the stack reads them when handed `s` with length `n`.
pub open spec fn prefix(s: Seq<u8>, n: int) -> Seq<u8> {
    s.subrange(0, n)
}

/// Copies `len` bytes of `s` from `start` into a new vector.
pub fn copy_range(s: &[u8], start: usize, len: usize) -> (r: Vec<u8>)
    requires
        start + len <= s@.len(),
    ensures
        r@ == s@.subrange(start as int, start + len),
{
    let mut r: Vec<u8> = Vec::with_capacity(len);
    let n = s.len();
    let mut i: usize = 0;
    while i < len
        invariant
            n == s@.len(),
            start + len <= n,
            i <= len,
            r@ == s@.subrange(start as int, start + i),
        decreases len - i,
    {
        r.push(s[start + i]);
        i = i + 1;
        assert(r@ =~= s@.subrange(start as int, start + i));
    }
    r
}

} // verus!
