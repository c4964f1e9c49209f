//! The configuration API's handle to a window.

use vstd::prelude::*;

verus! {

/// A handle to a window, identified by its compositor id.
#[derive(Clone, Copy, Debug, PartialEq, Eq, Hash, Structural)]
pub struct WindowHandle {
    pub id: u32,
}

} // verus!
