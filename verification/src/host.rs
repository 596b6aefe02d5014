//! What the interpreter asks of its host.
//!
//! The host draws. The interpreter does not call it: a function that needs
//! the host records the request, and whoever runs the interpreter performs
//! the recorded requests in order between two steps. A drawing surface is
//! named by the guest address of the object that stands for it.
//!
//! Some functions of the guest's libraries only the host can run. For such
//! a call the host leaves its answer, the value that its function returns,
//! before the step that serves the call; the step takes the answer and
//! returns it to the guest.
use vstd::prelude::*;

verus! {

/// What kind of surface the guest asked for.
#[derive(Clone, Copy, Debug, PartialEq, Eq, Structural)]
pub struct SurfaceOptions {
    pub width: u32,
    pub height: u32,
    pub primary: bool,
}

/// A request to the host.
#[derive(Clone, Copy, Debug, PartialEq, Eq, Structural)]
pub enum HostCall {
    /// Create the surface that the guest object at `surface` stands for.
    CreateSurface { surface: u32, opts: SurfaceOptions },
    /// Copy the `w` by `h` pixels at (`sx`, `sy`) of `src` to (`dx`, `dy`)
    /// of `dst`.
    BitBlt { dst: u32, dx: u32, dy: u32, src: u32, sx: u32, sy: u32, w: u32, h: u32 },
    /// Show the surface.
    Flip { surface: u32 },
    /// Let the guest object at `attached` stand for the surface attached to
    /// `surface`.
    GetAttached { surface: u32, attached: u32 },
}

/// The requests that wait for the host, oldest first, and the answer that
/// the host has left for the next call that only it can serve.
pub struct Host {
    pub calls: Vec<HostCall>,
    pub answer: Option<u32>,
}

impl View for Host {
    type V = Seq<HostCall>;

    open spec fn view(&self) -> Seq<HostCall> {
        self.calls@
    }
}

impl SurfaceOptions {
    pub open spec fn spec_default() -> SurfaceOptions {
        SurfaceOptions { width: 0, height: 0, primary: false }
    }
}

impl Default for SurfaceOptions {
    fn default() -> (opts: SurfaceOptions)
        ensures
            opts == SurfaceOptions::spec_default(),
    {
        SurfaceOptions { width: 0, height: 0, primary: false }
    }
}

impl Host {
    pub fn new() -> (host: Host)
        ensures
            host@ == Seq::<HostCall>::empty(),
            host.answer is None,
    {
        Host { calls: Vec::new(), answer: None }
    }

    /// Records a request.
    pub fn call(&mut self, request: HostCall)
        ensures
            final(self)@ == old(self)@.push(request),
            final(self).answer == old(self).answer,
    {
        self.calls.push(request);
    }

    /// Leaves the host's answer to the next call that only the host can
    /// serve. An answer that was left before and not taken is replaced.
    pub fn leave(&mut self, value: u32)
        ensures
            final(self)@ == old(self)@,
            final(self).answer == Some(value),
    {
        self.answer = Some(value);
    }

    /// Takes the answer that the host has left, if it has left one.
    pub fn collect(&mut self) -> (value: Option<u32>)
        ensures
            value == old(self).answer,
            final(self)@ == old(self)@,
            final(self).answer is None,
    {
        let value = self.answer;
        self.answer = None;
        value
    }

    /// Hands out the recorded requests, oldest first, and forgets them.
    pub fn take(&mut self) -> (calls: Vec<HostCall>)
        ensures
            calls@ == old(self)@,
            final(self)@ == Seq::<HostCall>::empty(),
            final(self).answer == old(self).answer,
    {
        let mut calls = Vec::new();
        std::mem::swap(&mut calls, &mut self.calls);
        calls
    }
}

} // verus!
