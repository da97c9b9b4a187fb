//! The pi-radius demo: orbiting circles traced over time, with no input.
use vstd::prelude::*;
use crate::hot_reload::{DemoHud, WindowInput};

verus! {

#[derive(Debug)]
pub struct State;

impl State {
    pub fn new() -> (state: Self) {
        State
    }
}

/// The pi-radius demo ignores every event.
pub fn window_event<P>(state: &mut State, _input: &WindowInput<P>)
    ensures
        *final(state) == *old(state),
{
}

pub open spec fn hud_text() -> Seq<char> {
    "Pi Radius\nInput: None"@
}

pub fn render_hud(_state: &State) -> (hud: DemoHud)
    ensures
        hud.demo_hud_text@ == hud_text(),
{
    DemoHud { demo_hud_text: String::from_str("Pi Radius\nInput: None") }
}

} // verus!
