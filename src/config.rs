use vstd::prelude::*;

verus! {

/// The backend slot of PCSX2 when none is given.
pub const PCSX2_SLOT: u16 = 28011;
/// The backend slot of RPCS3 when none is given.
pub const RPCS3_SLOT: u16 = 28012;
/// The backend slot of DuckStation when none is given.
pub const DUCKSTATION_SLOT: u16 = 28011;

/// Where to reach the backend: its slot, and whether the slot may be
/// discovered rather than taken as given.
#[derive(Clone, Copy, Debug, PartialEq, Eq, Structural)]
pub struct Endpoint {
    pub slot: u16,
    pub auto: bool,
}

/// A startup configuration that names no reachable backend.
#[derive(Clone, Copy, Debug, PartialEq, Eq, Structural)]
pub enum ConfigError {
    /// The target is not a known emulator and no slot was given.
    SlotRequired,
}

/// The default slot of a known target.
pub open spec fn default_slot(target: Seq<char>) -> Option<u16> {
    if target == "pcsx2"@ {
        Some(PCSX2_SLOT)
    } else if target == "rpcs3"@ {
        Some(RPCS3_SLOT)
    } else if target == "duckstation"@ {
        Some(DUCKSTATION_SLOT)
    } else {
        None
    }
}

/// Picks the endpoint for `target`: a known target takes the given slot or its
/// default, and is discovered when none was given; any other target needs a slot.
pub fn resolve_target(target: &str, slot: Option<u16>) -> (r: Result<Endpoint, ConfigError>)
    ensures
        default_slot(target@) matches Some(d) ==> r == Ok::<Endpoint, ConfigError>(
            Endpoint {
                slot: match slot {
                    Some(s) => s,
                    None => d,
                },
                auto: slot is None,
            },
        ),
        default_slot(target@) is None ==> r == match slot {
            Some(s) => Ok::<Endpoint, ConfigError>(Endpoint { slot: s, auto: false }),
            None => Err(ConfigError::SlotRequired),
        },
{
    let t = target.to_owned();
    let known = if t == "pcsx2".to_owned() {
        Some(PCSX2_SLOT)
    } else if t == "rpcs3".to_owned() {
        Some(RPCS3_SLOT)
    } else if t == "duckstation".to_owned() {
        Some(DUCKSTATION_SLOT)
    } else {
        None
    };
    match known {
        Some(d) => Ok(
            Endpoint {
                slot: match slot {
                    Some(s) => s,
                    None => d,
                },
                auto: slot.is_none(),
            },
        ),
        None => match slot {
            Some(s) => Ok(Endpoint { slot: s, auto: false }),
            None => Err(ConfigError::SlotRequired),
        },
    }
}

} // verus!
