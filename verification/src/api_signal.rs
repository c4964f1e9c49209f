//! Signal subscriptions of the configuration API: the compositor fires
//! signals; a config registers callbacks for them. The callbacks themselves
//! are host code; this registry records which signal kinds have how many
//! callbacks and hands out the tokens that identify each registration.

use vstd::prelude::*;

verus! {

/// An output signal a config can listen for.
#[derive(Clone, Copy, Debug, PartialEq, Eq, Structural)]
pub enum OutputSignal {
    /// An output was connected.
    Connect,
    /// An output was disconnected.
    Disconnect,
    /// An output was resized, through a scale or mode change.
    Resize,
    /// An output was moved.
    Move,
}

/// A tag signal a config can listen for.
#[derive(Clone, Copy, Debug, PartialEq, Eq, Structural)]
pub enum TagSignal {
    /// A tag was activated or deactivated.
    Active,
}

/// Identifies one callback registration.
#[derive(Clone, Copy, Debug, PartialEq, Eq, Hash, Structural)]
pub struct SignalHandle {
    pub token: u64,
}

/// Counts the callbacks registered per signal kind and allocates
/// registration tokens.
#[derive(Clone, Copy, Debug, PartialEq, Eq, Structural)]
pub struct SignalRegistry {
    pub next_token: u64,
    pub output_connect: u64,
    pub output_disconnect: u64,
    pub output_resize: u64,
    pub output_move: u64,
    pub tag_active: u64,
}

impl SignalRegistry {
    /// A registry with no callbacks.
    pub fn new() -> (r: SignalRegistry)
        ensures
            r == (SignalRegistry {
                next_token: 0,
                output_connect: 0,
                output_disconnect: 0,
                output_resize: 0,
                output_move: 0,
                tag_active: 0,
            }),
    {
        SignalRegistry {
            next_token: 0,
            output_connect: 0,
            output_disconnect: 0,
            output_resize: 0,
            output_move: 0,
            tag_active: 0,
        }
    }
}

} // verus!
