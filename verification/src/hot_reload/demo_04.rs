//! The squares demo: a grid of squares whose rotation grows by a random step.
//! The step is drawn by the caller; this module only carries it.
use vstd::prelude::*;
use crate::hot_reload::{DemoHud, WindowInput};

verus! {

/// `rotation_delta` is the per-square rotation step chosen when the demo starts.
#[derive(Debug)]
pub struct State<R> {
    pub rotation_delta: R,
}

impl<R> State<R> {
    /// A fresh demo with the given (randomly drawn) rotation step.
    pub fn new(rotation_delta: R) -> (state: Self)
        ensures
            state.rotation_delta == rotation_delta,
    {
        State { rotation_delta }
    }
}

/// The squares demo ignores every event.
pub fn window_event<R, P>(state: &mut State<R>, _input: &WindowInput<P>)
    ensures
        *final(state) == *old(state),
{
}

pub open spec fn hud_text() -> Seq<char> {
    "Squares\nInput: None"@
}

pub fn render_hud<R>(_state: &State<R>) -> (hud: DemoHud)
    ensures
        hud.demo_hud_text@ == hud_text(),
{
    DemoHud { demo_hud_text: String::from_str("Squares\nInput: None") }
}

} // verus!
