use vstd::prelude::*;

verus! {

/// Status of an ACI or HCI command as the stack reports it.
#[derive(Copy, Clone, Debug, PartialEq, Eq, Structural)]
pub enum BleStatus {
    Success,
    Busy,
    InvalidParam,
    Other(i32),
}

/// Result of a stack operation: the error is the status the stack returned.
pub type BleResult<T> = core::result::Result<T, BleStatus>;

/// The status that a raw return code stands for: zero is success, any other code is kept as it is.
pub open spec fn status_of(code: i32) -> BleStatus {
    if code == 0 {
        BleStatus::Success
    } else {
        BleStatus::Other(code)
    }
}

/// What an operation without an output yields for a raw return code.
pub open spec fn unit_result_of(code: i32) -> BleResult<()> {
    if code == 0 {
        Ok(())
    } else {
        Err(status_of(code))
    }
}

impl From<i32> for BleStatus {
    fn from(v: i32) -> Self {
        if v == 0 {
            BleStatus::Success
        } else {
            BleStatus::Other(v)
        }
    }
}

impl vstd::std_specs::convert::FromSpecImpl<i32> for BleStatus {
    open spec fn obeys_from_spec() -> bool {
        true
    }

    open spec fn from_spec(v: i32) -> Self {
        status_of(v)
    }
}

/// Turns a raw return code into `Ok(())` on success and into the failing status otherwise.
pub fn check(code: i32) -> (r: BleResult<()>)
    ensures
        r == unit_result_of(code),
        r is Ok <==> code == 0,
{
    let status = BleStatus::from(code);
    if status == BleStatus::Success {
        Ok(())
    } else {
        Err(status)
    }
}

} // verus!
