//! The climate demo: a speed field with arrows and advected trails. Four keys
//! switch its layers: A toggles the arrows, T cycles the trail density, C the
//! colour resolution and S the trail speed.
use vstd::prelude::*;
use crate::hot_reload::{DemoHud, Key, WindowInput};

verus! {

pub const COLOR_RESOLUTION_X: usize = 125;
pub const COLOR_RESOLUTION_Y: usize = 80;

/// A three-step setting.
#[derive(Clone, Copy, Debug, PartialEq, Eq, Structural)]
pub enum DensityLevel {
    Low,
    Medium,
    High,
}

pub open spec fn label_of(level: DensityLevel) -> Seq<char> {
    match level {
        DensityLevel::Low => "Low"@,
        DensityLevel::Medium => "Medium"@,
        DensityLevel::High => "High"@,
    }
}

pub open spec fn next_of(level: DensityLevel) -> DensityLevel {
    match level {
        DensityLevel::Low => DensityLevel::Medium,
        DensityLevel::Medium => DensityLevel::High,
        DensityLevel::High => DensityLevel::Low,
    }
}

impl DensityLevel {
    /// The name shown in the overlay.
    pub fn label(self) -> (label: &'static str)
        ensures
            label@ == label_of(self),
    {
        match self {
            DensityLevel::Low => "Low",
            DensityLevel::Medium => "Medium",
            DensityLevel::High => "High",
        }
    }

    /// The following level; `High` wraps round to `Low`.
    pub fn next(self) -> (next: Self)
        ensures
            next == next_of(self),
    {
        match self {
            DensityLevel::Low => DensityLevel::Medium,
            DensityLevel::Medium => DensityLevel::High,
            DensityLevel::High => DensityLevel::Low,
        }
    }
}

/// Three steps of `next` come back to the start.
pub proof fn density_cycle(level: DensityLevel)
    ensures
        next_of(next_of(next_of(level))) == level,
        next_of(level) != level,
{
}

/// The (columns, rows) of the colour grid for a resolution level: a quarter, a
/// half, or all of the full 125 x 80 grid (integer division).
pub open spec fn color_resolution_of(level: DensityLevel) -> (usize, usize) {
    match level {
        DensityLevel::Low => ((COLOR_RESOLUTION_X / 4) as usize, (COLOR_RESOLUTION_Y / 4) as usize),
        DensityLevel::Medium => ((COLOR_RESOLUTION_X / 2) as usize, (COLOR_RESOLUTION_Y / 2) as usize),
        DensityLevel::High => (COLOR_RESOLUTION_X, COLOR_RESOLUTION_Y),
    }
}

pub fn color_resolution(resolution: DensityLevel) -> (cells: (usize, usize))
    ensures
        cells == color_resolution_of(resolution),
{
    match resolution {
        DensityLevel::Low => (COLOR_RESOLUTION_X / 4, COLOR_RESOLUTION_Y / 4),
        DensityLevel::Medium => (COLOR_RESOLUTION_X / 2, COLOR_RESOLUTION_Y / 2),
        DensityLevel::High => (COLOR_RESOLUTION_X, COLOR_RESOLUTION_Y),
    }
}

/// The demo's layer settings.
#[derive(Clone, Copy, Debug, PartialEq, Eq, Structural)]
pub struct State {
    pub show_arrows: bool,
    pub trail_density: DensityLevel,
    pub color_resolution: DensityLevel,
    pub trail_speed: DensityLevel,
}

impl State {
    /// Arrows on, low trail density, medium colour resolution, low speed.
    pub fn new() -> (state: Self)
        ensures
            state.show_arrows,
            state.trail_density == DensityLevel::Low,
            state.color_resolution == DensityLevel::Medium,
            state.trail_speed == DensityLevel::Low,
    {
        State {
            show_arrows: true,
            trail_density: DensityLevel::Low,
            color_resolution: DensityLevel::Medium,
            trail_speed: DensityLevel::Low,
        }
    }
}

/// What a key press does to the settings; other events change nothing.
pub open spec fn key_step(state: State, key: Key) -> State {
    match key {
        Key::A => State { show_arrows: !state.show_arrows, ..state },
        Key::T => State { trail_density: next_of(state.trail_density), ..state },
        Key::C => State { color_resolution: next_of(state.color_resolution), ..state },
        Key::S => State { trail_speed: next_of(state.trail_speed), ..state },
        _ => state,
    }
}

pub fn window_event<P>(state: &mut State, input: &WindowInput<P>)
    ensures
        match *input {
            WindowInput::KeyPressed(key) => *final(state) == key_step(*old(state), key),
            _ => *final(state) == *old(state),
        },
{
    match input {
        WindowInput::KeyPressed(Key::A) => state.show_arrows = !state.show_arrows,
        WindowInput::KeyPressed(Key::T) => state.trail_density = state.trail_density.next(),
        WindowInput::KeyPressed(Key::C) => state.color_resolution = state.color_resolution.next(),
        WindowInput::KeyPressed(Key::S) => state.trail_speed = state.trail_speed.next(),
        _ => {},
    }
}

/// The overlay text, naming the current setting of each layer.
pub open spec fn hud_text(state: State) -> Seq<char> {
    "Climate\nInput: A = Arrows ("@ + (if state.show_arrows { "On"@ } else { "Off"@ })
        + ")\nInput: T = Trails ("@ + label_of(state.trail_density) + ")\nInput: C = Colors ("@
        + label_of(state.color_resolution) + ")\nInput: S = Speed ("@ + label_of(state.trail_speed)
        + ")"@
}

pub fn render_hud(state: &State) -> (hud: DemoHud)
    ensures
        hud.demo_hud_text@ == hud_text(*state),
{
    let mut text = String::from_str("Climate\nInput: A = Arrows (");
    text.append(if state.show_arrows { "On" } else { "Off" });
    text.append(")\nInput: T = Trails (");
    text.append(state.trail_density.label());
    text.append(")\nInput: C = Colors (");
    text.append(state.color_resolution.label());
    text.append(")\nInput: S = Speed (");
    text.append(state.trail_speed.label());
    text.append(")");
    DemoHud { demo_hud_text: text }
}

/// The overlay names each level by its own word, so no two levels share one.
pub proof fn labels_name_their_levels()
    ensures
        label_of(DensityLevel::Low) == "Low"@,
        label_of(DensityLevel::Medium) == "Medium"@,
        label_of(DensityLevel::High) == "High"@,
        forall|a: DensityLevel, b: DensityLevel| label_of(a) == label_of(b) ==> a == b,
{
    reveal_strlit("Low");
    reveal_strlit("Medium");
    reveal_strlit("High");
    assert("Low"@.len() == 3);
    assert("Medium"@.len() == 6);
    assert("High"@.len() == 4);
    assert("High"@[0] == 'H');
}

/// Each layer key changes only its own setting, moving a level one step
/// (Low, Medium, High, then Low again) or flipping the arrows; any other key
/// changes nothing.
pub proof fn layer_keys_change_only_their_layer(before: State, key: Key, after: State)
    requires
        after == key_step(before, key),
    ensures
        key == Key::A ==> after.show_arrows != before.show_arrows,
        key != Key::A ==> after.show_arrows == before.show_arrows,
        key != Key::T ==> after.trail_density == before.trail_density,
        key != Key::C ==> after.color_resolution == before.color_resolution,
        key != Key::S ==> after.trail_speed == before.trail_speed,
        key == Key::T ==> steps_up(before.trail_density, after.trail_density),
        key == Key::C ==> steps_up(before.color_resolution, after.color_resolution),
        key == Key::S ==> steps_up(before.trail_speed, after.trail_speed),
{
}

/// `to` is the level after `from`, wrapping from High back to Low.
pub open spec fn steps_up(from: DensityLevel, to: DensityLevel) -> bool {
    ||| from == DensityLevel::Low && to == DensityLevel::Medium
    ||| from == DensityLevel::Medium && to == DensityLevel::High
    ||| from == DensityLevel::High && to == DensityLevel::Low
}

} // verus!
