use vstd::prelude::*;

verus! {

/// Error kinds reported by the store and passed through from the engine.
#[derive(Clone, Copy, Debug, PartialEq, Eq, Structural)]
pub enum ErrorCode {
    Fail,
    Busy,
    Already,
    Off,
    Reserve,
    Inval,
    Size,
    Cancel,
    NoMem,
    NoSupport,
    NoDevice,
    Uninstalled,
    NoAck,
}

} // verus!
