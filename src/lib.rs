//! Host-side driver logic for a vendor BLE stack reached through its ACI/HCI command set.
//!
//! Each operation is expressed as the commands it hands to the stack and as what it makes of
//! the stack's replies; the caller owns the link to the stack and runs the commands.

pub mod aci;
pub mod adv;
pub mod c_shims;
pub mod gatt;
pub mod status;

pub use adv::start_fast_name;
pub use gatt::{add_char, add_primary_service, update_char_value, Char, Service};
pub use status::{BleResult, BleStatus};

use vstd::prelude::*;
use vstd::string::StringSliceAdditionalSpecFns;
use aci::{copy_range, prefix, AciCommand, CommandModel, Reply, Step};
use status::{check, status_of};

verus! {

/// GAP role code of a peripheral.
pub const GAP_PERIPHERAL_ROLE: u8 = 0x01;

/// Proof that the stack was brought up for the peripheral role.
#[derive(Copy, Clone, Debug, PartialEq, Eq)]
pub struct Ble {
    _priv: (),
}

impl Ble {
    /// The one value of `Ble`.
    pub closed spec fn up() -> Ble {
        Ble { _priv: () }
    }
}

/// Stages of bringing the stack up.
#[derive(Copy, Clone, Debug, PartialEq, Eq)]
pub enum InitStage {
    GattInit,
    GapInit,
    /// Writing the device name into the GAP service's name characteristic.
    DeviceName { service_handle: u16, name_handle: u16 },
    Finished(BleResult<Ble>),
}

/// Where bringing the stack up stands: the device name, and the stage.
pub ghost struct InitModel {
    pub name: Seq<u8>,
    pub stage: InitStage,
}

impl InitModel {
    /// The command of the current stage. The name length is passed as one byte, so of a
    /// longer name the stack takes the first `len % 256` bytes.
    pub open spec fn command(self) -> CommandModel {
        match self.stage {
            InitStage::GattInit => CommandModel::GattInit,
            InitStage::GapInit => CommandModel::GapInit {
                role: GAP_PERIPHERAL_ROLE,
                privacy_enabled: 0,
                device_name_char_len: (self.name.len() % 256) as u8,
            },
            InitStage::DeviceName { service_handle, name_handle } =>
                CommandModel::GattUpdateCharValue {
                service_handle,
                char_handle: name_handle,
                offset: 0,
                value: prefix(self.name, (self.name.len() % 256) as int),
            },
            InitStage::Finished(_) => CommandModel::GattInit,
        }
    }

    /// The state after the stack answered: a failure ends with its status; after GAP set-up
    /// the name is written where it is not empty, into the handles the stack returned.
    pub open spec fn after(self, reply: Reply) -> InitModel {
        let stage = if reply.status != 0 {
            InitStage::Finished(Err(status_of(reply.status)))
        } else {
            match self.stage {
                InitStage::GattInit => InitStage::GapInit,
                InitStage::GapInit => if self.name.len() == 0 {
                    InitStage::Finished(Ok(Ble::up()))
                } else {
                    InitStage::DeviceName {
                        service_handle: reply.handles@[0],
                        name_handle: reply.handles@[1],
                    }
                },
                _ => InitStage::Finished(Ok(Ble::up())),
            }
        };
        InitModel { stage, ..self }
    }
}

/// Bringing the stack up for the GAP peripheral role: GATT, then GAP without privacy, then
/// the device name.
pub struct PeripheralInit {
    name: Vec<u8>,
    stage: InitStage,
}

impl View for PeripheralInit {
    type V = InitModel;

    closed spec fn view(&self) -> InitModel {
        InitModel { name: self.name@, stage: self.stage }
    }
}

impl Ble {
    /// Starts bringing the stack up as a GAP peripheral named `dev_name` (an empty name keeps
    /// the stack's own).
    pub fn init_peripheral(dev_name: &str) -> (r: PeripheralInit)
        ensures
            r@ == (InitModel { name: dev_name.spec_bytes(), stage: InitStage::GattInit }),
    {
        let bytes = dev_name.as_bytes();
        let n = bytes.len();
        let name = copy_range(bytes, 0, n);
        assert(name@ =~= bytes@);
        PeripheralInit { name, stage: InitStage::GattInit }
    }
}

impl PeripheralInit {
    /// The next command to issue, or the outcome once it is over.
    pub fn next(&self) -> (r: Step<Ble>)
        ensures
            match r {
                Step::Issue(c) => !(self@.stage is Finished) && c@ == self@.command() && c@.fits(),
                Step::Done(o) => self@.stage == InitStage::Finished(o),
            },
    {
        match self.stage {
            InitStage::Finished(o) => Step::Done(o),
            InitStage::GattInit => Step::Issue(AciCommand::GattInit),
            InitStage::GapInit => Step::Issue(
                AciCommand::GapInit {
                    role: GAP_PERIPHERAL_ROLE,
                    privacy_enabled: 0,
                    device_name_char_len: (self.name.len() % 256) as u8,
                },
            ),
            InitStage::DeviceName { service_handle, name_handle } => {
                let len = self.name.len() % 256;
                Step::Issue(
                    AciCommand::GattUpdateCharValue {
                        service_handle,
                        char_handle: name_handle,
                        offset: 0,
                        value: copy_range(self.name.as_slice(), 0, len),
                    },
                )
            },
        }
    }

    /// Takes the stack's answer to the command that `next` returned.
    pub fn on_reply(&mut self, reply: &Reply)
        requires
            !(old(self)@.stage is Finished),
        ensures
            final(self)@ == old(self)@.after(*reply),
    {
        self.stage = match check(reply.status) {
            Err(e) => InitStage::Finished(Err(e)),
            Ok(()) => match self.stage {
                InitStage::GattInit => InitStage::GapInit,
                InitStage::GapInit => if self.name.len() == 0 {
                    InitStage::Finished(Ok(Ble { _priv: () }))
                } else {
                    InitStage::DeviceName {
                        service_handle: reply.handles[0],
                        name_handle: reply.handles[1],
                    }
                },
                _ => InitStage::Finished(Ok(Ble { _priv: () })),
            },
        };
    }
}

} // verus!
