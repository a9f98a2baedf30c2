use vstd::prelude::*;

verus! {

/// The host's error taxonomy.
///
/// Startup failures (`Module`) and terminal failures (`Terminal`) are fatal;
/// everything the guest can provoke at runtime (`Memory`, `Decode`, `Image`)
/// is contained at the callback boundary and surfaced through the log line.
#[derive(Clone, Copy, Debug, PartialEq, Eq, Structural)]
pub enum HostError {
    /// The guest module is malformed or lacks a required import or export.
    Module,
    /// A guest-supplied (offset, length) pair falls outside the shared region.
    Memory,
    /// Bytes that should have been text did not decode.
    Decode,
    /// A frame buffer did not hold exactly the expected byte count.
    Image,
    /// The terminal failed while drawing or while polling for events.
    Terminal,
}

} // verus!
