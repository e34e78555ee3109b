//! Zero-initialised records handed to the operating system's timer,
//! thread and mutex services.
//!
//! The operating system fills these records itself once they are
//! registered; to this crate they are opaque storage whose only
//! specified state is the all-zero one that the constructors
//! establish. Registering the records and the lock and unlock calls
//! are host concerns.
use vstd::prelude::*;

verus! {

/// One-shot deadline timer record, armed by the host for retry
/// backoff.
#[derive(Debug, Clone, PartialEq)]
pub struct OSAlarm {
    data: [u8; 44],
}

impl OSAlarm {
    pub closed spec fn is_zeroed(self) -> bool {
        forall|i: int| 0 <= i < 44 ==> self.data@[i] == 0u8
    }

    /// A fresh, unarmed timer record.
    pub fn new() -> (r: OSAlarm)
        ensures
            r.is_zeroed(),
    {
        OSAlarm { data: [0u8; 44] }
    }
}

/// Operating-system thread control block.
#[derive(Debug, Clone, PartialEq)]
pub struct OSThread {
    data: [u8; 792],
}

impl OSThread {
    pub closed spec fn is_zeroed(self) -> bool {
        forall|i: int| 0 <= i < 792 ==> self.data@[i] == 0u8
    }

    /// A fresh thread record, ready to be handed to thread creation.
    pub fn new() -> (r: OSThread)
        ensures
            r.is_zeroed(),
    {
        OSThread { data: [0u8; 792] }
    }
}

/// Operating-system mutex record. Initialisation only zeroes the
/// storage; locking goes through the host.
#[derive(Debug, Clone, PartialEq)]
pub struct WiiMutex {
    data: [u8; 24],
}

impl WiiMutex {
    pub closed spec fn is_zeroed(self) -> bool {
        forall|i: int| 0 <= i < 24 ==> self.data@[i] == 0u8
    }

    /// A fresh, unlocked mutex record.
    pub fn new() -> (r: WiiMutex)
        ensures
            r.is_zeroed(),
    {
        WiiMutex { data: [0u8; 24] }
    }
}

} // verus!
