//! Advertising control.
use vstd::prelude::*;
use vstd::string::StringSliceAdditionalSpecFns;
use crate::aci::{copy_range, prefix, AciCommand, CommandModel, Reply, Step};
use crate::status::{check, status_of, BleResult};

verus! {

/// Advertising type: connectable undirected (ADV_IND).
pub const ADV_TYPE_UNDIRECTED: u8 = 0x00;

/// Own address type: public.
pub const OWN_ADDR_PUBLIC: u8 = 0x00;

/// Filter policy: scans and connections from anyone.
pub const FILTER_ALLOW_ALL: u8 = 0x00;

/// Fast advertising interval bounds, in units of 0.625 ms (20 ms and 40 ms).
pub const FAST_INTERVAL_MIN: u16 = 0x0020;
pub const FAST_INTERVAL_MAX: u16 = 0x0040;

/// Largest advertising payload, in bytes.
pub const MAX_ADV_DATA: usize = 31;

/// The command that makes the device discoverable under `name` with the fast interval, a
/// public address and no filter, leaving the connection interval to the stack. The name length
/// is passed as one byte, so of a longer name the stack reads the first `len % 256` bytes.
pub open spec fn discoverable_model(name: Seq<u8>) -> CommandModel {
    CommandModel::GapSetDiscoverable {
        adv_type: ADV_TYPE_UNDIRECTED,
        interval_min: FAST_INTERVAL_MIN,
        interval_max: FAST_INTERVAL_MAX,
        own_addr_type: OWN_ADDR_PUBLIC,
        filter_policy: FILTER_ALLOW_ALL,
        local_name: prefix(name, (name.len() % 256) as int),
        service_uuids: Seq::empty(),
        conn_interval_min: 0,
        conn_interval_max: 0,
    }
}

/// The command that switches advertising on (`true`) or off.
pub open spec fn enable_model(on: bool) -> CommandModel {
    CommandModel::SetAdvertisingEnable { enable: if on { 1 } else { 0 } }
}

/// Stages of starting advertising.
#[derive(Copy, Clone, Debug, PartialEq, Eq)]
pub enum AdvStage {
    Discoverable,
    Enable,
    Finished(BleResult<()>),
}

/// Where a start of advertising stands: the name, and the stage.
pub ghost struct AdvertiseModel {
    pub name: Seq<u8>,
    pub stage: AdvStage,
}

impl AdvertiseModel {
    /// The command of the current stage.
    pub open spec fn command(self) -> CommandModel {
        match self.stage {
            AdvStage::Discoverable => discoverable_model(self.name),
            _ => enable_model(true),
        }
    }

    /// The state after the stack answered: a failure ends with its status, a success moves to
    /// the next stage.
    pub open spec fn after(self, reply: Reply) -> AdvertiseModel {
        let stage = if reply.status != 0 {
            AdvStage::Finished(Err(status_of(reply.status)))
        } else {
            match self.stage {
                AdvStage::Discoverable => AdvStage::Enable,
                _ => AdvStage::Finished(Ok(())),
            }
        };
        AdvertiseModel { stage, ..self }
    }
}

/// Starting connectable advertising under a local name: make the device discoverable, then
/// make sure advertising is on.
pub struct StartFastName {
    name: Vec<u8>,
    stage: AdvStage,
}

impl View for StartFastName {
    type V = AdvertiseModel;

    closed spec fn view(&self) -> AdvertiseModel {
        AdvertiseModel { name: self.name@, stage: self.stage }
    }
}

/// Starts undirected connectable advertising with the local name `name`, at a 20 to 40 ms
/// interval, from the public address, with no filter.
pub fn start_fast_name(name: &str) -> (r: StartFastName)
    ensures
        r@ == (AdvertiseModel { name: name.spec_bytes(), stage: AdvStage::Discoverable }),
{
    let bytes = name.as_bytes();
    let n = bytes.len();
    let copy = copy_range(bytes, 0, n);
    assert(copy@ =~= bytes@);
    StartFastName { name: copy, stage: AdvStage::Discoverable }
}

impl StartFastName {
    /// The next command to issue, or the outcome once it is over.
    pub fn next(&self) -> (r: Step<()>)
        ensures
            match r {
                Step::Issue(c) => !(self@.stage is Finished) && c@ == self@.command() && c@.fits(),
                Step::Done(o) => self@.stage == AdvStage::Finished(o),
            },
    {
        match self.stage {
            AdvStage::Finished(o) => Step::Done(o),
            AdvStage::Discoverable => {
                let len = self.name.len() % 256;
                let cmd = AciCommand::GapSetDiscoverable {
                    adv_type: ADV_TYPE_UNDIRECTED,
                    interval_min: FAST_INTERVAL_MIN,
                    interval_max: FAST_INTERVAL_MAX,
                    own_addr_type: OWN_ADDR_PUBLIC,
                    filter_policy: FILTER_ALLOW_ALL,
                    local_name: copy_range(self.name.as_slice(), 0, len),
                    service_uuids: Vec::new(),
                    conn_interval_min: 0,
                    conn_interval_max: 0,
                };
                proof {
                    assert(cmd@.fits());
                }
                Step::Issue(cmd)
            },
            AdvStage::Enable => Step::Issue(AciCommand::SetAdvertisingEnable { enable: 1 }),
        }
    }

    /// Takes the stack's answer to the command that `next` returned.
    pub fn on_reply(&mut self, reply: &Reply)
        requires
            !(old(self)@.stage is Finished),
        ensures
            final(self)@ == old(self)@.after(*reply),
    {
        self.stage = match check(reply.status) {
            Err(e) => AdvStage::Finished(Err(e)),
            Ok(()) => match self.stage {
                AdvStage::Discoverable => AdvStage::Enable,
                _ => AdvStage::Finished(Ok(())),
            },
        };
    }
}

/// Builds the command that stops advertising.
pub fn stop() -> (r: AciCommand)
    ensures
        r@ == enable_model(false),
{
    AciCommand::SetAdvertisingEnable { enable: 0 }
}

/// Builds the command that replaces the advertising data: at most its first 31 bytes are used.
pub fn set_adv_data(data: &[u8]) -> (r: AciCommand)
    ensures
        r@ == (CommandModel::SetAdvertisingData {
            data: prefix(data@, if data@.len() < MAX_ADV_DATA { data@.len() as int } else { MAX_ADV_DATA as int }),
        }),
        r@.fits(),
{
    let n = data.len();
    let len = if n < MAX_ADV_DATA {
        n
    } else {
        MAX_ADV_DATA
    };
    AciCommand::SetAdvertisingData { data: copy_range(data, 0, len) }
}

} // verus!
