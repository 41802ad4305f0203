//! What the metadata of every construct has.

use crate::schema::Tag;
use vstd::prelude::*;

verus! {

/// The metadata of any construct: its tag.
pub trait Constraint {
    fn tag() -> Tag;
}

} // verus!
