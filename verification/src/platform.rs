//! The platform an application runs on, as far as the screen-size fix cares.

use vstd::prelude::*;

verus! {

/// The operating systems the fix tells apart.
///
/// Only iOS reports touch positions that need rescaling; every other system
/// is treated alike.
#[derive(Clone, Copy, Debug, PartialEq, Eq, Structural)]
pub enum Platform {
    /// Apple's iOS, the one platform whose screen size is queried.
    Ios,
    /// Any other operating system.
    Other,
}

impl Platform {
    /// Whether the native screen size has to be queried on this platform.
    pub open spec fn needs_native_size(self) -> bool {
        self == Platform::Ios
    }

    /// Tells whether the native screen size has to be queried on this platform.
    pub fn queries_native_size(self) -> (needed: bool)
        ensures
            needed == self.needs_native_size(),
    {
        match self {
            Platform::Ios => true,
            Platform::Other => false,
        }
    }
}

} // verus!
