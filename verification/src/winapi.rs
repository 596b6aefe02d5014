//! The Win32 functions that the host implements for the guest.
pub mod ddraw;
pub mod gdi32;
pub mod kernel32;
pub mod shlwapi;
pub mod stack_args;
pub mod vtable;

use vstd::prelude::*;

verus! {

/// What the host-implemented libraries keep for the guest process.
pub struct State {
    pub kernel32: kernel32::State,
    pub ddraw: ddraw::State,
    pub gdi32: gdi32::State,
}

impl State {
    pub fn new() -> (state: State)
        ensures
            state.kernel32@ == Map::<u32, kernel32::Heap>::empty(),
            state.ddraw@ == ddraw::Model::empty(),
            state.gdi32@ == Seq::<gdi32::DC>::empty(),
    {
        State {
            kernel32: kernel32::State::new(),
            ddraw: ddraw::State::new_empty(),
            gdi32: gdi32::State::new(),
        }
    }
}

} // verus!
