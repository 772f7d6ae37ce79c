//! Key descriptors.
//!
//! The engine produces one key descriptor per cursor step: a key-type
//! discriminant, a position in the key-space, and a size.  The descriptor
//! is a transient view, valid only until the cursor advances or the
//! transaction restarts, so the traversal layer copies the three fields it
//! reads into this plain value type.

use vstd::prelude::*;
use crate::pos::Bpos;

verus! {

/// Metadata for one stored record, as yielded by a cursor step.
#[derive(Clone, Copy, Debug, PartialEq, Eq, Structural)]
pub struct Bkey {
    /// The key-type discriminant.
    pub type_: u8,
    /// The position of the record in the key-space.
    pub p: Bpos,
    /// The size of the record.
    pub size: u32,
}

} // verus!
