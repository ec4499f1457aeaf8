//! Common type definitions.

use vstd::prelude::*;

verus! {

/// The identity of a CPU core.
///
/// Ids are handed out sequentially at boot; core 0 is the bootstrap processor.
#[derive(Debug, Clone, Copy, PartialEq, Eq, Structural, PartialOrd, Ord, Hash, Default)]
pub struct CoreId(pub u8);

impl CoreId {
    /// Whether this core is the bootstrap processor used to initialize global systems.
    pub fn is_bsp(&self) -> (r: bool)
        ensures
            r == (self.0 == 0),
    {
        self.0 == 0
    }
}

impl From<u8> for CoreId {
    fn from(value: u8) -> (r: CoreId)
        ensures
            r.0 == value,
    {
        CoreId(value)
    }
}

impl vstd::std_specs::convert::FromSpecImpl<u8> for CoreId {
    open spec fn obeys_from_spec() -> bool {
        true
    }

    open spec fn from_spec(v: u8) -> CoreId {
        CoreId(v)
    }
}

impl From<CoreId> for u8 {
    fn from(value: CoreId) -> (r: u8)
        ensures
            r == value.0,
    {
        value.0
    }
}

impl vstd::std_specs::convert::FromSpecImpl<CoreId> for u8 {
    open spec fn obeys_from_spec() -> bool {
        true
    }

    open spec fn from_spec(v: CoreId) -> u8 {
        v.0
    }
}

} // verus!
