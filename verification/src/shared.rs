//! What the callbacks of mpv tell the main thread.
use vstd::prelude::*;

verus! {

/// Which callback of mpv was called.
#[derive(Clone, Copy, Debug, PartialEq, Eq, Structural)]
pub enum MpvEvent {
    CoreUpdate,
    RenderUpdate,
}

} // verus!
