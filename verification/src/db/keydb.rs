//! Messages of the cache's publish/subscribe channel.
use vstd::prelude::*;

verus! {

/// A message on the maintenance channel.
#[derive(Debug, Clone, Copy, PartialEq, Eq, Structural)]
pub enum MaintenanceMSG {
    /// A maintenance window starts.
    Start,
    /// The maintenance window ends.
    Stop,
    /// Any other payload.
    Ignored,
}

/// What a payload on the maintenance channel means.
pub open spec fn maintenance_msg_of(payload: Seq<u8>) -> MaintenanceMSG {
    if payload == seq![0x73u8, 0x74u8, 0x61u8, 0x72u8, 0x74u8] {
        MaintenanceMSG::Start
    } else if payload == seq![0x73u8, 0x74u8, 0x6fu8, 0x70u8] {
        MaintenanceMSG::Stop
    } else {
        MaintenanceMSG::Ignored
    }
}

impl MaintenanceMSG {
    /// Reads a message from its payload: `start`, `stop`, or anything else.
    pub fn from_payload(payload: &[u8]) -> (r: MaintenanceMSG)
        ensures
            r == maintenance_msg_of(payload@),
    {
        if payload.len() == 5 && payload[0] == 0x73 && payload[1] == 0x74 && payload[2] == 0x61
            && payload[3] == 0x72 && payload[4] == 0x74 {
            assert(payload@ =~= seq![0x73u8, 0x74u8, 0x61u8, 0x72u8, 0x74u8]);
            MaintenanceMSG::Start
        } else if payload.len() == 4 && payload[0] == 0x73 && payload[1] == 0x74 && payload[2]
            == 0x6f && payload[3] == 0x70 {
            assert(payload@ =~= seq![0x73u8, 0x74u8, 0x6fu8, 0x70u8]);
            MaintenanceMSG::Stop
        } else {
            proof {
                if payload@ == seq![0x73u8, 0x74u8, 0x61u8, 0x72u8, 0x74u8] {
                    assert(payload@.len() == 5);
                    assert(payload@[0] == 0x73u8);
                }
                if payload@ == seq![0x73u8, 0x74u8, 0x6fu8, 0x70u8] {
                    assert(payload@.len() == 4);
                    assert(payload@[0] == 0x73u8);
                }
            }
            MaintenanceMSG::Ignored
        }
    }
}

} // verus!
