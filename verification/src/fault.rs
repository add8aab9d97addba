//! Fatal access conditions of the bus.
//!
//! Two accesses terminate emulation: reading a named but unimplemented
//! hardware feature (serial, color-only registers), and touching an LCD
//! register offset outside the recognized eleven. Both carry the offending
//! address so the enclosing process can report it before exiting. All other
//! unmapped accesses are benign and resolve to a neutral default instead.

use vstd::prelude::*;

verus! {

/// A fatal bus access. Once one is raised the enclosing process is expected
/// to stop emulation; there is no recovery path.
#[derive(Clone, Copy, Debug, PartialEq, Eq, Structural)]
pub enum BusFault {
    /// An address mapped to a named hardware feature this system does not
    /// implement (serial data, color-only registers) was read.
    UnsupportedFeatureAccess { address: u16 },
    /// An LCD register offset outside the recognized register file was
    /// accessed.
    UnknownRegisterAccess { address: u16 },
}

impl BusFault {
    /// The offending address the fault was raised with.
    pub open spec fn spec_address(self) -> u16 {
        match self {
            BusFault::UnsupportedFeatureAccess { address } => address,
            BusFault::UnknownRegisterAccess { address } => address,
        }
    }

    /// Returns the offending address the fault was raised with.
    pub fn address(&self) -> (r: u16)
        ensures
            r == self.spec_address(),
    {
        match self {
            BusFault::UnsupportedFeatureAccess { address } => *address,
            BusFault::UnknownRegisterAccess { address } => *address,
        }
    }
}

} // verus!
