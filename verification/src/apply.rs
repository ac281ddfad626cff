//! The outcome of applying a chosen wallpaper.

use vstd::prelude::*;

verus! {

/// The applier could not set the wallpaper. The tick ends, the error is
/// reported, and the scheduler carries on: an apply failure never stops
/// rotation.
#[derive(Debug, Clone, Copy, PartialEq, Eq, Structural)]
pub struct ApplyError;

/// Judges one logical "set wallpaper" request made of two underlying
/// actions, one per background key (the normal and the dark-mode one). Both
/// are always attempted; the request succeeds only when both did.
pub fn apply_outcome(primary_set: bool, dark_set: bool) -> (r: Result<(), ApplyError>)
    ensures
        r is Ok <==> primary_set && dark_set,
{
    if primary_set && dark_set {
        Ok(())
    } else {
        Err(ApplyError)
    }
}

} // verus!
