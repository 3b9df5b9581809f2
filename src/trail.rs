//! Query trails: which association fields a query asks for.
//!
//! A trail field holding `None` was not walked (the client did not ask for
//! it); `Some(t)` was walked, with `t` the trail below it.
use vstd::prelude::*;

verus! {

/// The trail below a `Country`: it has no association fields.
#[derive(PartialEq, Eq, Structural, Clone, Copy, Debug)]
pub struct CountryTrail;

/// The trail below a `User`.
#[derive(PartialEq, Eq, Structural, Clone, Copy, Debug)]
pub struct UserTrail {
    pub country: Option<CountryTrail>,
}

/// The trail below a `UserConnection`: the `edges { node }` selection.
#[derive(PartialEq, Eq, Structural, Clone, Copy, Debug)]
pub struct UserConnectionTrail {
    pub edges_node: Option<UserTrail>,
}

/// An association field of a node type.
#[derive(PartialEq, Eq, Structural, Clone, Copy, Debug)]
pub enum Association {
    /// `User.country`.
    Country,
}

impl UserTrail {
    /// The association fields that the trail walks.
    pub open spec fn walked(self) -> Set<Association> {
        if self.country is Some {
            set![Association::Country]
        } else {
            Set::empty()
        }
    }
}

} // verus!
