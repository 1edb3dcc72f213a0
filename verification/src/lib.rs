//! Native shell startup logic for a desktop application that launches a
//! backend worker process (a "sidecar") during setup.
//!
//! The shell itself is thin: build a GUI application, optionally attach a
//! debug logger, locate and spawn a bundled backend executable, and react
//! to failure. The GUI framework, the spawned backend, and the operating
//! system are external collaborators; what this library verifies is the
//! decision core of that startup routine: the sidecar supervisor state
//! machine, the strict/tolerant failure policies, the logging that each
//! outcome produces, and the guarantee that at most one spawn attempt is
//! made per launch.

pub mod bootstrap;
pub mod supervisor;

use vstd::prelude::*;

verus! {

/// The logical name of the bundled backend executable. The host platform
/// layer resolves this key to a concrete path; it is not a path itself.
pub open spec fn spec_sidecar_name() -> Seq<char> {
    "cyberforge-backend"@
}

/// The lookup key handed to the platform layer when resolving the sidecar.
pub fn sidecar_name() -> (key: &'static str)
    ensures
        key@ == spec_sidecar_name(),
{
    "cyberforge-backend"
}

} // verus!
