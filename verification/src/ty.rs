//! The configuration an embedder supplies: its four domain types.

use crate::atom::{TotalOrder, TyAtom};
use vstd::prelude::*;

verus! {

/// The domain types of one embedding. Each brings a total order; variables
/// and basic types may also label decision nodes.
pub trait TyConfig: Sized + core::fmt::Debug {
    type TyName: TotalOrder;

    type Basic: TyAtom;

    type Var: TyAtom;

    type Prop: TotalOrder;
}

} // verus!
