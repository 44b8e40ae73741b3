//! What the crate asks of whoever moves the assets.
//!
//! No operation moves an asset itself. It says which transfer belongs to it,
//! and the caller has it carried out, all or nothing, together with the change
//! to the records.

use vstd::prelude::*;
use crate::identity::Identity;

verus! {

/// The asset that a transfer moves.
#[derive(Clone, Copy, Debug, PartialEq, Eq)]
pub enum Asset {
    /// The asset that users stake.
    Base,
    /// The asset that rewards are paid in, named by its identity.
    Reward(Identity),
}

/// One movement of `amount` units of `asset` out of `from` and into `to`.
#[derive(Clone, Copy, Debug, PartialEq, Eq)]
pub struct Transfer {
    pub asset: Asset,
    pub from: Identity,
    pub to: Identity,
    pub amount: u64,
}

} // verus!
