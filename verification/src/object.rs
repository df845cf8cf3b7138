//! What a layer holds.

use vstd::prelude::*;

verus! {

/// Something a layer can hold: it has an identity and a name.
pub trait Object: Send + Sync {
    fn id(&self) -> u32;

    fn name(&self) -> &String;
}

} // verus!
