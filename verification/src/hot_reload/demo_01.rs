//! The template demo: a static scene with no input.
use vstd::prelude::*;
use crate::hot_reload::{DemoHud, WindowInput};

verus! {

/// This demo keeps nothing from frame to frame.
#[derive(Debug)]
pub struct State;

impl State {
    pub fn new() -> (state: Self) {
        State
    }
}

/// The template demo ignores every event.
pub fn window_event<P>(state: &mut State, _input: &WindowInput<P>)
    ensures
        *final(state) == *old(state),
{
}

/// The demo's text for the status overlay.
pub open spec fn hud_text() -> Seq<char> {
    "Template\nInput: None"@
}

pub fn render_hud(_state: &State) -> (hud: DemoHud)
    ensures
        hud.demo_hud_text@ == hud_text(),
{
    DemoHud { demo_hud_text: String::from_str("Template\nInput: None") }
}

} // verus!
