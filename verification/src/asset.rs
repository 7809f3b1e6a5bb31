//! Assets and the handles that name them.

pub mod handle;

use vstd::prelude::*;

verus! {

/// Marker for types that can be loaded and addressed through a
/// [`handle::Handle`].
pub trait Asset {

}

} // verus!
