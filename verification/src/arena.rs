//! The bump arena that owns every node, and the one call that allocates in it.

use vstd::prelude::*;

verus! {

/// `bumpalo::Bump`, the arena. It is opaque here: a value of it is only
/// made, kept and handed to `place`.
#[verifier::external_type_specification]
#[verifier::external_body]
pub struct ExBump<const MIN_ALIGN: usize>(bumpalo::Bump<MIN_ALIGN>);

/// `bumpalo::Bump::new`: a fresh, empty arena. Nothing is claimed of it.
#[verifier::external_body]
pub(crate) fn fresh_arena() -> (arena: bumpalo::Bump) {
    bumpalo::Bump::new()
}

/// `bumpalo::Bump::alloc`: moves `value` into the arena and hands back a
/// reference that lives as long as the arena. The claim is that the
/// referent is the value that was passed in. The call aborts when the arena
/// cannot reserve memory.
#[verifier::external_body]
pub(crate) fn place<'a, T>(arena: &'a bumpalo::Bump, value: T) -> (r: &'a T)
    ensures
        *r == value,
{
    arena.alloc(value)
}

} // verus!
