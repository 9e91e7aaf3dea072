//! GATT server set-up: services, characteristics and value updates.
use vstd::prelude::*;
use crate::aci::{
    copy_range, make_char_uuid128, make_char_uuid16, make_service_uuid128, make_service_uuid16,
    prefix, uuid16_field, AciCommand, CommandModel, Reply, Step, MAX_CHUNK,
};
use crate::status::{check, status_of, unit_result_of, BleResult};

verus! {

/// A primary service registered with the stack.
#[derive(Copy, Clone, Debug, PartialEq, Eq, Structural)]
pub struct Service {
    pub handle: u16,
}

/// A characteristic registered with the stack.
#[derive(Copy, Clone, Debug, PartialEq, Eq, Structural)]
pub struct Char {
    /// The stack returns the *declaration* handle. The value attribute is at `handle + 1`
    /// and the client configuration descriptor, where notify or indicate is set, at `handle + 2`.
    pub handle: u16,
}

/// UUID type code of a 16-bit UUID.
pub const UUID_TYPE_16: u8 = 0x01;

/// UUID type code of a 128-bit UUID.
pub const UUID_TYPE_128: u8 = 0x02;

/// Service type code of a primary service.
pub const PRIMARY_SERVICE: u8 = 0x01;

/// Characteristic property: readable.
pub const CHAR_PROP_READ: u8 = 0x02;

/// Characteristic property: notifies.
pub const CHAR_PROP_NOTIFY: u8 = 0x10;

/// Security permission: none required.
pub const ATTR_PERMISSION_NONE: u8 = 0x00;

/// Event mask bit: report writes to the attribute.
pub const GATT_NOTIFY_ATTRIBUTE_WRITE: u8 = 0x01;

/// Update type of `aci_gatt_update_char_value_ext` that sends a notification.
pub const GATT_CHAR_UPDATE_SEND_NOTIFICATION: u8 = 0x01;

impl Char {
    /// Handle of the characteristic's value attribute, right after its declaration.
    pub fn value_handle(&self) -> (r: u16)
        requires
            self.handle < 0xffff,
        ensures
            r == self.handle + 1,
    {
        self.handle + 1
    }
}

/// The command that registers a primary service with the given UUID field.
pub open spec fn add_service_model(uuid_type: u8, uuid: Seq<u8>, max_attr_records: u8) -> CommandModel {
    CommandModel::GattAddService {
        uuid_type,
        uuid,
        service_type: PRIMARY_SERVICE,
        max_attr_records,
    }
}

/// The command that adds a fixed-length characteristic with the default key size.
pub open spec fn add_char_model(
    service_handle: u16,
    uuid_type: u8,
    uuid: Seq<u8>,
    props: u8,
    perm: u8,
    len: u16,
    evt_mask: u8,
) -> CommandModel {
    CommandModel::GattAddChar {
        service_handle,
        uuid_type,
        uuid,
        value_len: len,
        props,
        perm,
        evt_mask,
        enc_key_size: 0,
        is_variable: 0,
    }
}

/// What a reply to an add-service command yields.
pub open spec fn service_result(reply: Reply) -> BleResult<Service> {
    if reply.status == 0 {
        Ok(Service { handle: reply.handles@[0] })
    } else {
        Err(status_of(reply.status))
    }
}

/// What a reply to an add-characteristic command yields.
pub open spec fn char_result(reply: Reply) -> BleResult<Char> {
    if reply.status == 0 {
        Ok(Char { handle: reply.handles@[0] })
    } else {
        Err(status_of(reply.status))
    }
}

/// The value update command: the stack reads the length as one byte, so of a longer value it
/// reads the first `len % 256` bytes.
pub open spec fn update_value_model(service_handle: u16, char_handle: u16, val: Seq<u8>) -> CommandModel {
    CommandModel::GattUpdateCharValue {
        service_handle,
        char_handle,
        offset: 0,
        value: prefix(val, (val.len() % 256) as int),
    }
}

/// Builds the command that adds a primary service with a 16-bit UUID.
pub fn add_primary_service_uuid16(uuid16: u16, max_attr_records: u8) -> (r: AciCommand)
    ensures
        r@ == add_service_model(UUID_TYPE_16, uuid16_field(uuid16), max_attr_records),
        r@.fits(),
{
    AciCommand::GattAddService {
        uuid_type: UUID_TYPE_16,
        uuid: make_service_uuid16(uuid16),
        service_type: PRIMARY_SERVICE,
        max_attr_records,
    }
}

/// Builds the command that adds a primary service with a 16-bit UUID.
pub fn add_primary_service(uuid16: u16, max_attr_records: u8) -> (r: AciCommand)
    ensures
        r@ == add_service_model(UUID_TYPE_16, uuid16_field(uuid16), max_attr_records),
        r@.fits(),
{
    add_primary_service_uuid16(uuid16, max_attr_records)
}

/// Builds the command that adds a primary service with a 128-bit UUID.
pub fn add_primary_service_uuid128(uuid128: [u8; 16], max_attr_records: u8) -> (r: AciCommand)
    ensures
        r@ == add_service_model(UUID_TYPE_128, uuid128@, max_attr_records),
        r@.fits(),
{
    AciCommand::GattAddService {
        uuid_type: UUID_TYPE_128,
        uuid: make_service_uuid128(&uuid128),
        service_type: PRIMARY_SERVICE,
        max_attr_records,
    }
}

/// Reads the outcome of an add-service command: the new service, or the failing status.
pub fn service_from_reply(reply: &Reply) -> (r: BleResult<Service>)
    ensures
        r == service_result(*reply),
{
    match check(reply.status) {
        Ok(()) => Ok(Service { handle: reply.handles[0] }),
        Err(e) => Err(e),
    }
}

/// Builds the command that adds a characteristic with a 16-bit UUID to `svc`; `evt_mask`
/// asks for events such as `GATT_NOTIFY_ATTRIBUTE_WRITE`.
pub fn add_char_with_mask(
    svc: &Service,
    uuid16: u16,
    props: u8,
    perm: u8,
    len: u16,
    evt_mask: u8,
) -> (r: AciCommand)
    ensures
        r@ == add_char_model(svc.handle, UUID_TYPE_16, uuid16_field(uuid16), props, perm, len, evt_mask),
        r@.fits(),
{
    AciCommand::GattAddChar {
        service_handle: svc.handle,
        uuid_type: UUID_TYPE_16,
        uuid: make_char_uuid16(uuid16),
        value_len: len,
        props,
        perm,
        evt_mask,
        enc_key_size: 0,
        is_variable: 0,
    }
}

/// Builds the command that adds a characteristic with a 16-bit UUID and no event mask.
pub fn add_char(svc: &Service, uuid16: u16, props: u8, perm: u8, len: u16) -> (r: AciCommand)
    ensures
        r@ == add_char_model(svc.handle, UUID_TYPE_16, uuid16_field(uuid16), props, perm, len, 0),
        r@.fits(),
{
    add_char_with_mask(svc, uuid16, props, perm, len, 0)
}

/// Builds the command that adds a characteristic with a 128-bit UUID to `svc`.
pub fn add_char_uuid128_with_mask(
    svc: &Service,
    uuid128: [u8; 16],
    props: u8,
    perm: u8,
    len: u16,
    evt_mask: u8,
) -> (r: AciCommand)
    ensures
        r@ == add_char_model(svc.handle, UUID_TYPE_128, uuid128@, props, perm, len, evt_mask),
        r@.fits(),
{
    AciCommand::GattAddChar {
        service_handle: svc.handle,
        uuid_type: UUID_TYPE_128,
        uuid: make_char_uuid128(&uuid128),
        value_len: len,
        props,
        perm,
        evt_mask,
        enc_key_size: 0,
        is_variable: 0,
    }
}

/// Reads the outcome of an add-characteristic command: the new characteristic, or the failing status.
pub fn char_from_reply(reply: &Reply) -> (r: BleResult<Char>)
    ensures
        r == char_result(*reply),
{
    match check(reply.status) {
        Ok(()) => Ok(Char { handle: reply.handles[0] }),
        Err(e) => Err(e),
    }
}

/// Builds the command that writes `val` into the value of `ch` at offset zero; the stack
/// notifies subscribers where their descriptor asks for it. Values up to 255 bytes fit.
pub fn update_char_value(svc: &Service, ch: &Char, val: &[u8]) -> (r: AciCommand)
    requires
        ch.handle < 0xffff,
    ensures
        r@ == update_value_model(svc.handle, (ch.handle + 1) as u16, val@),
        r@.fits(),
{
    let len = val.len() % 256;
    AciCommand::GattUpdateCharValue {
        service_handle: svc.handle,
        char_handle: ch.value_handle(),
        offset: 0,
        value: copy_range(val, 0, len),
    }
}

/// Reads the outcome of a command that has no output.
pub fn unit_from_reply(reply: &Reply) -> (r: BleResult<()>)
    ensures
        r == unit_result_of(reply.status),
{
    check(reply.status)
}

/// Where a chunked value update stands: the value (as the stack is told its total length, in
/// 16 bits), how much of it has been sent, and the outcome once it is over.
pub ghost struct NotifyModel {
    pub service_handle: u16,
    pub value_handle: u16,
    pub value: Seq<u8>,
    pub offset: int,
    pub ext: bool,
    pub outcome: Option<BleResult<()>>,
}

impl NotifyModel {
    /// The offset lies within the value, which fits 16 bits, and an unfinished update has
    /// bytes left to send.
    pub open spec fn valid(self) -> bool {
        &&& self.value.len() < 65536
        &&& 0 <= self.offset <= self.value.len()
        &&& self.outcome is None ==> self.offset < self.value.len()
    }

    /// Length of the next chunk: what is left, but at most 255 bytes.
    pub open spec fn chunk_len(self) -> int {
        if self.value.len() - self.offset < MAX_CHUNK {
            self.value.len() - self.offset
        } else {
            MAX_CHUNK as int
        }
    }

    /// The bytes of the next chunk.
    pub open spec fn chunk(self) -> Seq<u8> {
        self.value.subrange(self.offset, self.offset + self.chunk_len())
    }

    /// The command that sends the next chunk: through the extended update, which carries the
    /// total length and a 16-bit offset, or through the basic one, whose offset is 8 bits wide.
    pub open spec fn command(self) -> CommandModel {
        if self.ext {
            CommandModel::GattUpdateCharValueExt {
                service_handle: self.service_handle,
                char_handle: self.value_handle,
                update_type: GATT_CHAR_UPDATE_SEND_NOTIFICATION,
                total_len: self.value.len() as u16,
                offset: self.offset as u16,
                value: self.chunk(),
            }
        } else {
            CommandModel::GattUpdateCharValue {
                service_handle: self.service_handle,
                char_handle: self.value_handle,
                offset: (self.offset % 256) as u8,
                value: self.chunk(),
            }
        }
    }

    /// The state after the stack answered the current command: a failure ends the update with
    /// that status, a success moves past the chunk and ends it once the value is all sent.
    pub open spec fn after(self, reply: Reply) -> NotifyModel {
        if reply.status != 0 {
            NotifyModel { outcome: Some(Err(status_of(reply.status))), ..self }
        } else if self.offset + self.chunk_len() == self.value.len() {
            NotifyModel { offset: self.offset + self.chunk_len(), outcome: Some(Ok(())), ..self }
        } else {
            NotifyModel { offset: self.offset + self.chunk_len(), ..self }
        }
    }
}

/// The state a chunked update starts in. The total length is passed in 16 bits, so of a longer
/// value only the first `len % 65536` bytes are sent; an empty one is done at once.
pub open spec fn notify_start(service_handle: u16, value_handle: u16, val: Seq<u8>, ext: bool) -> NotifyModel {
    let value = prefix(val, (val.len() % 65536) as int);
    NotifyModel {
        service_handle,
        value_handle,
        value,
        offset: 0,
        ext,
        outcome: if value.len() == 0 {
            Some(Ok(()))
        } else {
            None
        },
    }
}

/// Each successful reply moves an unfinished chunked update past the chunk just sent, which
/// holds from 1 to 255 bytes; what has been sent is always the start of the value, and the
/// update ends with success exactly when all of it has been sent.
pub proof fn lemma_notify_progress(m: NotifyModel, reply: Reply)
    requires
        m.valid(),
        m.outcome is None,
        reply.status == 0,
    ensures
        m.after(reply).valid(),
        1 <= m.chunk().len() <= MAX_CHUNK,
        m.after(reply).offset == m.offset + m.chunk().len(),
        m.value.subrange(0, m.offset) + m.chunk() == m.value.subrange(0, m.after(reply).offset),
        m.after(reply).outcome == (if m.after(reply).offset == m.value.len() {
            Some(Ok::<(), crate::status::BleStatus>(()))
        } else {
            None
        }),
{
    assert(m.value.subrange(0, m.offset) + m.chunk() =~= m.value.subrange(0, m.after(reply).offset));
}

/// A value update sent in chunks of at most 255 bytes, one command per chunk.
pub struct ChunkedNotify {
    service_handle: u16,
    value_handle: u16,
    value: Vec<u8>,
    offset: u16,
    ext: bool,
    outcome: Option<BleResult<()>>,
}

impl View for ChunkedNotify {
    type V = NotifyModel;

    closed spec fn view(&self) -> NotifyModel {
        NotifyModel {
            service_handle: self.service_handle,
            value_handle: self.value_handle,
            value: self.value@,
            offset: self.offset as int,
            ext: self.ext,
            outcome: self.outcome,
        }
    }
}

fn chunked(svc: &Service, ch: &Char, val: &[u8], ext: bool) -> (r: ChunkedNotify)
    requires
        ch.handle < 0xffff,
    ensures
        r.wf(),
        r@ == notify_start(svc.handle, (ch.handle + 1) as u16, val@, ext),
{
    let total = val.len() % 65536;
    let value = copy_range(val, 0, total);
    let outcome = if total == 0 {
        Some(Ok(()))
    } else {
        None
    };
    ChunkedNotify {
        service_handle: svc.handle,
        value_handle: ch.value_handle(),
        value,
        offset: 0,
        ext,
        outcome,
    }
}

/// Starts an update of `ch` with `val` sent in chunks through the basic update command, each
/// of which may notify subscribers.
pub fn update_char_value_chunked_notify(svc: &Service, ch: &Char, val: &[u8]) -> (r: ChunkedNotify)
    requires
        ch.handle < 0xffff,
    ensures
        r.wf(),
        r@.valid(),
        r@ == notify_start(svc.handle, (ch.handle + 1) as u16, val@, false),
{
    chunked(svc, ch, val, false)
}

/// Starts an update of `ch` with `val` sent in chunks through the extended update command,
/// which notifies subscribers.
pub fn update_char_value_chunked_notify_ext(svc: &Service, ch: &Char, val: &[u8]) -> (r: ChunkedNotify)
    requires
        ch.handle < 0xffff,
    ensures
        r.wf(),
        r@.valid(),
        r@ == notify_start(svc.handle, (ch.handle + 1) as u16, val@, true),
{
    chunked(svc, ch, val, true)
}

impl ChunkedNotify {
    /// The fields agree with each other: the value fits 16 bits and an unfinished update has
    /// bytes left to send.
    pub closed spec fn wf(&self) -> bool {
        &&& self.value@.len() < 65536
        &&& self.offset <= self.value@.len()
        &&& self.outcome is None ==> self.offset < self.value@.len()
    }

    /// The next command to issue, or the outcome once the update is over.
    pub fn next(&self) -> (r: Step<()>)
        requires
            self.wf(),
        ensures
            match r {
                Step::Issue(c) => self@.outcome is None && c@ == self@.command() && c@.fits(),
                Step::Done(o) => self@.outcome == Some(o),
            },
    {
        match self.outcome {
            Some(o) => Step::Done(o),
            None => {
                let total = self.value.len() as u16;
                let left = total - self.offset;
                let len = if left < MAX_CHUNK {
                    left
                } else {
                    MAX_CHUNK
                };
                let chunk = copy_range(self.value.as_slice(), self.offset as usize, len as usize);
                if self.ext {
                    Step::Issue(
                        AciCommand::GattUpdateCharValueExt {
                            service_handle: self.service_handle,
                            char_handle: self.value_handle,
                            update_type: GATT_CHAR_UPDATE_SEND_NOTIFICATION,
                            total_len: total,
                            offset: self.offset,
                            value: chunk,
                        },
                    )
                } else {
                    Step::Issue(
                        AciCommand::GattUpdateCharValue {
                            service_handle: self.service_handle,
                            char_handle: self.value_handle,
                            offset: (self.offset % 256) as u8,
                            value: chunk,
                        },
                    )
                }
            },
        }
    }

    /// Takes the stack's answer to the command that `next` returned.
    pub fn on_reply(&mut self, reply: &Reply)
        requires
            old(self).wf(),
            old(self)@.outcome is None,
        ensures
            final(self).wf(),
            final(self)@.valid(),
            final(self)@ == old(self)@.after(*reply),
    {
        match check(reply.status) {
            Err(e) => {
                self.outcome = Some(Err(e));
            },
            Ok(()) => {
                let total = self.value.len() as u16;
                let left = total - self.offset;
                let len = if left < MAX_CHUNK {
                    left
                } else {
                    MAX_CHUNK
                };
                self.offset = self.offset + len;
                if self.offset == total {
                    self.outcome = Some(Ok(()));
                }
            },
        }
    }
}

} // verus!
