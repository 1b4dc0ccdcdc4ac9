//! Integer hygiene applied to a camera's declared parameters.
//!
//! The camera's derived viewport geometry is floating point and lives
//! outside this crate; what it applies to the declared image height first
//! is exact and is stated here.

use vstd::prelude::*;

verus! {

/// The image height a render actually uses: a declared height below 1 is
/// raised to 1, any other height is kept as declared.
pub open spec fn clamped_height(height: nat) -> nat {
    if height < 1 {
        1
    } else {
        height
    }
}

/// Applies the height clamp a camera performs before deriving its viewport.
pub fn effective_height(height: usize) -> (r: usize)
    ensures
        r as nat == clamped_height(height as nat),
{
    if height < 1 {
        1
    } else {
        height
    }
}

/// Deriving the effective height a second time changes nothing: the clamp
/// is idempotent, so re-initializing with an already-clamped height
/// reproduces the same value.
pub proof fn lemma_clamped_height_idempotent(height: nat)
    ensures
        clamped_height(clamped_height(height)) == clamped_height(height),
{
}

} // verus!
