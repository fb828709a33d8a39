//! Detaching the process from the session that started it.

use vstd::prelude::*;

verus! {

/// The capability to detach the process from its controlling session. The
/// sequencer asks for it once, after privileges are dropped and before
/// either service starts serving.
pub trait Daemonizer {
    fn daemonize(&self);
}

/// The daemonizer of a production process. Detaching is not done on any
/// platform yet, so asking for it changes nothing.
#[derive(Clone, Copy, Debug, PartialEq, Eq, Structural)]
pub struct DaemonizerReal;

impl DaemonizerReal {
    pub fn new() -> (daemonizer: DaemonizerReal)
        ensures
            daemonizer == DaemonizerReal,
    {
        DaemonizerReal
    }
}

impl Daemonizer for DaemonizerReal {
    fn daemonize(&self) {
    }
}

} // verus!
