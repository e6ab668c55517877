use vstd::prelude::*;

verus! {

/// Whether a row is rewritten in place or created.
#[derive(Clone, Copy, Debug, PartialEq, Eq, Structural)]
pub enum RowWrite {
    Update,
    Insert,
}

} // verus!
