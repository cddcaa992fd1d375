// A relay from commit hooks to a desktop celebration: the loopback trigger
// endpoint's request handling, and the installer of the hook that calls it.
use vstd::prelude::*;

pub mod effect;
pub mod installer;
pub mod relay;

verus! {

} // verus!
