//! Device contexts.
use vstd::prelude::*;

verus! {

/// A device context: what a drawing call of the guest draws on.
#[derive(Clone, Copy, Debug, PartialEq, Eq, Structural)]
pub struct DC {
    /// The guest address of the surface object that the context draws on.
    pub ddraw_surface: u32,
}

/// The device contexts of the guest process. The handle of a context is its
/// position in the list, counted from one.
pub struct State {
    pub dcs: Vec<DC>,
}

impl View for State {
    type V = Seq<DC>;

    open spec fn view(&self) -> Seq<DC> {
        self.dcs@
    }
}

impl State {
    pub fn new() -> (state: State)
        ensures
            state@ == Seq::<DC>::empty(),
    {
        State { dcs: Vec::new() }
    }

    /// Adds a context and returns its handle, or returns zero and adds
    /// nothing when the handles have run out.
    pub fn new_dc(&mut self, dc: DC) -> (handle: u32)
        ensures
            old(self)@.len() < u32::MAX ==> handle == old(self)@.len() + 1 && final(self)@ == old(
                self,
            )@.push(dc),
            old(self)@.len() >= u32::MAX ==> handle == 0 && final(self)@ == old(self)@,
    {
        if self.dcs.len() >= u32::MAX as usize {
            return 0;
        }
        self.dcs.push(dc);
        self.dcs.len() as u32
    }
}

} // verus!
