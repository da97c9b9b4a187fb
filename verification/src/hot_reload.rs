//! The demo router: which demo runs, the keys that switch between demos, and
//! when the status overlay shows. Times are whole milliseconds since start.
use vstd::prelude::*;
use crate::text::{decimal, push_zero_padded, count_lines, line_count, zero_padded};
use crate::trails::{MemoryTrails, PointerInput};

pub mod demo_01;
pub mod demo_02;
pub mod demo_03;
pub mod demo_04;
pub mod demo_05;

verus! {

/// The design size shared by the desktop and web runners.
pub const WINDOW_WIDTH: u32 = 1024;
pub const WINDOW_HEIGHT: u32 = 640;

/// How many demos the router cycles through.
pub const DEMO_COUNT: usize = 4;

/// How long a hidden overlay shows after a demo switch.
pub const HUD_DEMO_SWITCH_REVEAL_MS: u64 = 2000;

/// The text a demo shows in its part of the status overlay.
#[derive(Clone, Debug, PartialEq, Eq)]
pub struct DemoHud {
    pub demo_hud_text: String,
}

/// The keys the router and the demos respond to.
#[derive(Clone, Copy, Debug, PartialEq, Eq, Structural)]
pub enum Key {
    A,
    C,
    F,
    H,
    R,
    S,
    T,
    Left,
    Right,
    Escape,
    Other,
}

/// A window event, reduced to what the router and the demos read.
#[derive(Debug)]
pub enum WindowInput<P> {
    KeyPressed(Key),
    Pointer(PointerInput<P>),
    Other,
}

/// What the caller must do after the router handled an event.
#[derive(Clone, Copy, Debug, PartialEq, Eq, Structural)]
pub enum RouterAction {
    Nothing,
    ToggleFullscreen,
}

/// The state of the demo that runs. `P` is the point type of the memory trails
/// and `R` the rotation step of the squares demo.
#[derive(Debug)]
pub enum DemoState<P, R> {
    Template(demo_01::State),
    Memories(demo_02::State<P>),
    Climate(demo_03::State),
    Squares(demo_04::State<R>),
}

/// The index of the demo a state belongs to.
pub open spec fn demo_kind<P, R>(state: DemoState<P, R>) -> nat {
    match state {
        DemoState::Template(_) => 0,
        DemoState::Memories(_) => 1,
        DemoState::Climate(_) => 2,
        DemoState::Squares(_) => 3,
    }
}

/// Whether `state` is the state demo `index` starts with (`rotation_delta` for
/// the squares demo).
pub open spec fn is_fresh_demo<P, R>(state: DemoState<P, R>, index: nat, rotation_delta: R) -> bool {
    &&& demo_kind(state) == index
    &&& match state {
        DemoState::Template(_) => true,
        DemoState::Memories(s) => {
            &&& s.wf()
            &&& s.trails.cursor() == Seq::<P>::empty()
            &&& !s.trails.recording()
            &&& s.trails.recorded() == Seq::<P>::empty()
            &&& s.trails.saved() == Seq::<(Seq<P>, u64)>::empty()
        },
        DemoState::Climate(s) => s == demo_03::State {
            show_arrows: true,
            trail_density: demo_03::DensityLevel::Low,
            color_resolution: demo_03::DensityLevel::Medium,
            trail_speed: demo_03::DensityLevel::Low,
        },
        DemoState::Squares(s) => s.rotation_delta == rotation_delta,
    }
}

/// The registry name of demo `index`.
pub open spec fn demo_name(index: nat) -> Seq<char> {
    if index == 0 {
        "demo_01"@
    } else if index == 1 {
        "demo_02"@
    } else if index == 2 {
        "demo_03"@
    } else {
        "demo_04"@
    }
}

/// The overlay text of a demo state: its registry name, a colon, and the text
/// the demo itself declares.
pub open spec fn demo_hud_text<P, R>(state: DemoState<P, R>) -> Seq<char> {
    demo_name(demo_kind(state)) + ": "@ + match state {
        DemoState::Template(_) => demo_01::hud_text(),
        DemoState::Memories(_) => demo_02::hud_text(),
        DemoState::Climate(s) => demo_03::hud_text(s),
        DemoState::Squares(_) => demo_04::hud_text(),
    }
}

impl<P, R> DemoState<P, R> {
    pub open spec fn wf(&self) -> bool {
        match *self {
            DemoState::Memories(s) => s.wf(),
            _ => true,
        }
    }

    /// A fresh state of demo `index`.
    pub fn new(index: usize, rotation_delta: R) -> (state: Self)
        requires
            index < DEMO_COUNT,
        ensures
            state.wf(),
            is_fresh_demo(state, index as nat, rotation_delta),
    {
        create_demo_state(index, rotation_delta)
    }

    /// The demo's part of the status overlay.
    pub fn render_hud(&self) -> (hud: DemoHud)
        ensures
            hud.demo_hud_text@ == demo_hud_text(*self),
    {
        let (name, inner) = match self {
            DemoState::Template(s) => ("demo_01", demo_01::render_hud(s)),
            DemoState::Memories(s) => ("demo_02", demo_02::render_hud(s)),
            DemoState::Climate(s) => ("demo_03", demo_03::render_hud(s)),
            DemoState::Squares(s) => ("demo_04", demo_04::render_hud(s)),
        };
        let mut text = String::from_str(name);
        text.append(": ");
        text.append(inner.demo_hud_text.as_str());
        DemoHud { demo_hud_text: text }
    }
}

impl<P: Copy, R> DemoState<P, R> {
    /// Hands an event to the running demo: pointer events reach the memories
    /// demo's trails, keys reach the climate demo's settings, and the other
    /// demos ignore every event.
    pub fn window_event(&mut self, input: &WindowInput<P>, time_ms: u64)
        requires
            old(self).wf(),
        ensures
            final(self).wf(),
            demo_event_step(*old(self), *input, time_ms, *final(self)),
    {
        match self {
            DemoState::Template(s) => demo_01::window_event(s, input),
            DemoState::Memories(s) => demo_02::window_event(s, input, time_ms),
            DemoState::Climate(s) => demo_03::window_event(s, input),
            DemoState::Squares(s) => demo_04::window_event(s, input),
        }
    }
}

/// The registry: a fresh state of demo `index`.
pub fn create_demo_state<P, R>(index: usize, rotation_delta: R) -> (state: DemoState<P, R>)
    requires
        index < DEMO_COUNT,
    ensures
        state.wf(),
        is_fresh_demo(state, index as nat, rotation_delta),
{
    if index == 0 {
        DemoState::Template(demo_01::State::new())
    } else if index == 1 {
        DemoState::Memories(demo_02::State::new())
    } else if index == 2 {
        DemoState::Climate(demo_03::State::new())
    } else {
        DemoState::Squares(demo_04::State::new(rotation_delta))
    }
}

/// An index wrapped into the range of demos.
pub fn normalize_demo_index(index: usize) -> (normalized: usize)
    ensures
        normalized == index % DEMO_COUNT,
        normalized < DEMO_COUNT,
{
    index % DEMO_COUNT
}

/// The router's state.
#[derive(Debug)]
pub struct Model<P, R> {
    demo_index: usize,
    demo_state: DemoState<P, R>,
    hud_visible: bool,
    /// While the overlay is hidden, the time until which a demo switch shows it.
    temporary_hud_visible_until: Option<u64>,
    /// Set when new code was loaded, so the next update restarts the demo.
    was_updated: bool,
}

impl<P, R> Model<P, R> {
    pub closed spec fn index(&self) -> nat {
        self.demo_index as nat
    }

    pub closed spec fn demo(&self) -> DemoState<P, R> {
        self.demo_state
    }

    pub closed spec fn hud(&self) -> bool {
        self.hud_visible
    }

    /// The end of a temporary overlay reveal, if one is pending.
    pub closed spec fn reveal_end(&self) -> Option<u64> {
        self.temporary_hud_visible_until
    }

    /// Whether new code was loaded since the last update.
    pub closed spec fn reload_pending(&self) -> bool {
        self.was_updated
    }

    /// The index names a demo, and the running demo is that one.
    pub open spec fn wf(&self) -> bool {
        &&& self.index() < DEMO_COUNT
        &&& demo_kind(self.demo()) == self.index()
        &&& self.demo().wf()
    }

    /// Starts on the first demo with the overlay shown.
    pub fn new(rotation_delta: R) -> (model: Self)
        ensures
            model.wf(),
            model.index() == 0,
            is_fresh_demo(model.demo(), 0, rotation_delta),
            model.hud(),
            model.reveal_end() is None,
            !model.reload_pending(),
    {
        Self::new_with_demo_index(0, rotation_delta)
    }

    /// Starts on demo `demo_index` (wrapped into range) with the overlay shown.
    pub fn new_with_demo_index(demo_index: usize, rotation_delta: R) -> (model: Self)
        ensures
            model.wf(),
            model.index() == demo_index % DEMO_COUNT,
            is_fresh_demo(model.demo(), demo_index as nat % DEMO_COUNT as nat, rotation_delta),
            model.hud(),
            model.reveal_end() is None,
            !model.reload_pending(),
    {
        Self::new_with_settings(demo_index, true, rotation_delta)
    }

    /// Starts on demo `demo_index` (wrapped into range) with the given overlay
    /// setting.
    pub fn new_with_settings(demo_index: usize, hud_visible: bool, rotation_delta: R) -> (model: Self)
        ensures
            model.wf(),
            model.index() == demo_index % DEMO_COUNT,
            is_fresh_demo(model.demo(), demo_index as nat % DEMO_COUNT as nat, rotation_delta),
            model.hud() == hud_visible,
            model.reveal_end() is None,
            !model.reload_pending(),
    {
        let demo_index = normalize_demo_index(demo_index);
        Model {
            demo_index,
            demo_state: DemoState::new(demo_index, rotation_delta),
            hud_visible,
            temporary_hud_visible_until: None,
            was_updated: false,
        }
    }

    pub fn current_demo_index(&self) -> (index: usize)
        ensures
            index == self.index(),
    {
        self.demo_index
    }

    pub fn hud_visible(&self) -> (visible: bool)
        ensures
            visible == self.hud(),
    {
        self.hud_visible
    }

    pub fn demo_state(&self) -> (state: &DemoState<P, R>)
        ensures
            *state == self.demo(),
    {
        &self.demo_state
    }

    /// The end of a pending temporary overlay reveal.
    pub fn temporary_hud_visible_until(&self) -> (until: Option<u64>)
        ensures
            until == self.reveal_end(),
    {
        self.temporary_hud_visible_until
    }

    /// Sets (or drops) the end of a temporary overlay reveal.
    pub fn set_temporary_hud_visible_until(&mut self, until: Option<u64>)
        ensures
            final(self).reveal_end() == until,
            final(self).hud() == old(self).hud(),
            final(self).index() == old(self).index(),
            final(self).demo() == old(self).demo(),
            final(self).reload_pending() == old(self).reload_pending(),
    {
        self.temporary_hud_visible_until = until;
    }

    /// Whether new code was loaded since the last update.
    pub fn was_updated(&self) -> (updated: bool)
        ensures
            updated == self.reload_pending(),
    {
        self.was_updated
    }

    /// Records whether new code was loaded.
    pub fn set_was_updated(&mut self, was_updated: bool)
        ensures
            final(self).reload_pending() == was_updated,
            final(self).reveal_end() == old(self).reveal_end(),
            final(self).hud() == old(self).hud(),
            final(self).index() == old(self).index(),
            final(self).demo() == old(self).demo(),
    {
        self.was_updated = was_updated;
    }

    /// Shows or hides the overlay for good, dropping any temporary reveal.
    pub fn set_hud_visible(&mut self, hud_visible: bool)
        ensures
            final(self).hud() == hud_visible,
            final(self).reveal_end() is None,
            final(self).index() == old(self).index(),
            final(self).demo() == old(self).demo(),
            final(self).reload_pending() == old(self).reload_pending(),
    {
        self.hud_visible = hud_visible;
        self.temporary_hud_visible_until = None;
    }

    /// Whether the overlay shows at `app_time_ms`: always while it is switched
    /// on, otherwise only before the end of a temporary reveal.
    pub fn status_overlay_visible(&self, app_time_ms: u64) -> (visible: bool)
        ensures
            visible == overlay_visible_at(self.hud(), self.reveal_end(), app_time_ms),
    {
        self.hud_visible || match self.temporary_hud_visible_until {
            Some(visible_until) => app_time_ms < visible_until,
            None => false,
        }
    }
}

/// Whether the overlay shows at `time_ms`.
pub open spec fn overlay_visible_at(hud_visible: bool, until: Option<u64>, time_ms: u64) -> bool {
    hud_visible || (until matches Some(t) && time_ms < t)
}

/// A temporary reveal with its end dropped once `time_ms` has reached it.
pub open spec fn cleared_reveal(until: Option<u64>, time_ms: u64) -> Option<u64> {
    match until {
        Some(end) => if time_ms >= end { None } else { Some(end) },
        None => None,
    }
}

/// The index before `index`, wrapping from the first demo to the last.
pub open spec fn previous_index(index: nat) -> nat {
    ((index + DEMO_COUNT - 1) % (DEMO_COUNT as int)) as nat
}

/// The index after `index`, wrapping from the last demo to the first.
pub open spec fn next_index(index: nat) -> nat {
    ((index + 1) % (DEMO_COUNT as nat)) as nat
}

/// The temporary reveal after a demo switch at `time_ms`: none while the
/// overlay is on, otherwise until `time_ms` plus the reveal period (saturating).
pub open spec fn reveal_until(hud_visible: bool, until: Option<u64>, time_ms: u64) -> Option<u64> {
    if hud_visible {
        until
    } else if time_ms + HUD_DEMO_SWITCH_REVEAL_MS > u64::MAX {
        Some(u64::MAX)
    } else {
        Some((time_ms + HUD_DEMO_SWITCH_REVEAL_MS) as u64)
    }
}

/// Flips the overlay for good (the H key).
pub fn toggle_status_overlay<P, R>(model: &mut Model<P, R>)
    ensures
        final(model).hud() == !old(model).hud(),
        final(model).reveal_end() is None,
        final(model).index() == old(model).index(),
        final(model).demo() == old(model).demo(),
        final(model).reload_pending() == old(model).reload_pending(),
{
    let visible = model.hud_visible();
    model.set_hud_visible(!visible);
}

/// While the overlay is hidden, shows it for a while after a demo switch.
pub fn reveal_hud_for_demo_switch<P, R>(model: &mut Model<P, R>, app_time_ms: u64)
    ensures
        final(model).reveal_end() == reveal_until(
            old(model).hud(),
            old(model).reveal_end(),
            app_time_ms,
        ),
        final(model).hud() == old(model).hud(),
        final(model).index() == old(model).index(),
        final(model).demo() == old(model).demo(),
        final(model).reload_pending() == old(model).reload_pending(),
{
    if !model.hud_visible {
        model.temporary_hud_visible_until = Some(app_time_ms.saturating_add(HUD_DEMO_SWITCH_REVEAL_MS));
    }
}

/// Switches to the previous demo (wrapping), starting it afresh.
pub fn select_previous_demo<P, R>(model: &mut Model<P, R>, app_time_ms: u64, rotation_delta: R)
    requires
        old(model).wf(),
    ensures
        final(model).wf(),
        final(model).index() == previous_index(old(model).index()),
        is_fresh_demo(final(model).demo(), final(model).index(), rotation_delta),
        final(model).reveal_end() == reveal_until(
            old(model).hud(),
            old(model).reveal_end(),
            app_time_ms,
        ),
        final(model).hud() == old(model).hud(),
        final(model).reload_pending() == old(model).reload_pending(),
{
    model.demo_index = (model.demo_index + DEMO_COUNT - 1) % DEMO_COUNT;
    model.demo_state = DemoState::new(model.demo_index, rotation_delta);
    reveal_hud_for_demo_switch(model, app_time_ms);
}

/// Switches to the next demo (wrapping), starting it afresh.
pub fn select_next_demo<P, R>(model: &mut Model<P, R>, app_time_ms: u64, rotation_delta: R)
    requires
        old(model).wf(),
    ensures
        final(model).wf(),
        final(model).index() == next_index(old(model).index()),
        is_fresh_demo(final(model).demo(), final(model).index(), rotation_delta),
        final(model).reveal_end() == reveal_until(
            old(model).hud(),
            old(model).reveal_end(),
            app_time_ms,
        ),
        final(model).hud() == old(model).hud(),
        final(model).reload_pending() == old(model).reload_pending(),
{
    model.demo_index = (model.demo_index + 1) % DEMO_COUNT;
    model.demo_state = DemoState::new(model.demo_index, rotation_delta);
    reveal_hud_for_demo_switch(model, app_time_ms);
}

/// Restarts the current demo from scratch (the R key, and after new code loads).
pub fn reload_current_demo<P, R>(model: &mut Model<P, R>, rotation_delta: R)
    requires
        old(model).wf(),
    ensures
        final(model).wf(),
        final(model).index() == old(model).index(),
        is_fresh_demo(final(model).demo(), final(model).index(), rotation_delta),
        final(model).hud() == old(model).hud(),
        final(model).reveal_end() == old(model).reveal_end(),
        final(model).reload_pending() == old(model).reload_pending(),
{
    model.demo_index = normalize_demo_index(model.demo_index);
    model.demo_state = DemoState::new(model.demo_index, rotation_delta);
}

/// Drops a temporary reveal whose end has passed at `app_time_ms`.
pub fn clear_expired_temporary_hud<P, R>(model: &mut Model<P, R>, app_time_ms: u64)
    ensures
        final(model).reveal_end() == cleared_reveal(old(model).reveal_end(), app_time_ms),
        final(model).hud() == old(model).hud(),
        final(model).index() == old(model).index(),
        final(model).demo() == old(model).demo(),
        final(model).reload_pending() == old(model).reload_pending(),
{
    match model.temporary_hud_visible_until {
        Some(visible_until) => {
            if app_time_ms >= visible_until {
                model.temporary_hud_visible_until = None;
            }
        },
        None => {},
    }
}

/// Per-frame upkeep of the router: restarts the demo when new code was loaded,
/// ends an expired temporary reveal, and clears the reload flag.
pub fn update<P, R>(model: &mut Model<P, R>, app_time_ms: u64, rotation_delta: R)
    requires
        old(model).wf(),
    ensures
        final(model).wf(),
        final(model).index() == old(model).index(),
        old(model).reload_pending() ==> is_fresh_demo(final(model).demo(), final(model).index(), rotation_delta),
        !old(model).reload_pending() ==> final(model).demo() == old(model).demo(),
        final(model).hud() == old(model).hud(),
        final(model).reveal_end() == cleared_reveal(old(model).reveal_end(), app_time_ms),
        !final(model).reload_pending(),
{
    if model.was_updated {
        reload_current_demo(model, rotation_delta);
    }
    clear_expired_temporary_hud(model, app_time_ms);
    model.was_updated = false;
}

/// What a key press or other event does to the router (see `window_event`).
pub open spec fn router_step<P, R>(
    before: Model<P, R>,
    input: WindowInput<P>,
    time_ms: u64,
    rotation_delta: R,
    after: Model<P, R>,
    action: RouterAction,
) -> bool {
    &&& after.wf()
    &&& match input {
        WindowInput::KeyPressed(Key::F) => action == RouterAction::ToggleFullscreen && after == before,
        WindowInput::KeyPressed(Key::H) => {
            &&& action == RouterAction::Nothing
            &&& after.hud() == !before.hud()
            &&& after.reveal_end() is None
            &&& after.index() == before.index()
            &&& after.demo() == before.demo()
            &&& after.reload_pending() == before.reload_pending()
        },
        WindowInput::KeyPressed(Key::R) => {
            &&& action == RouterAction::Nothing
            &&& after.index() == before.index()
            &&& is_fresh_demo(after.demo(), after.index(), rotation_delta)
            &&& after.hud() == before.hud()
            &&& after.reveal_end() == before.reveal_end()
            &&& after.reload_pending() == before.reload_pending()
        },
        WindowInput::KeyPressed(Key::Left) | WindowInput::KeyPressed(Key::Right) => {
            &&& action == RouterAction::Nothing
            &&& after.index() == if input == WindowInput::<P>::KeyPressed(Key::Left) {
                previous_index(before.index())
            } else {
                next_index(before.index())
            }
            &&& is_fresh_demo(after.demo(), after.index(), rotation_delta)
            &&& after.reveal_end() == reveal_until(before.hud(), before.reveal_end(), time_ms)
            &&& after.hud() == before.hud()
            &&& after.reload_pending() == before.reload_pending()
        },
        _ => {
            &&& action == RouterAction::Nothing
            &&& demo_event_step(before.demo(), input, time_ms, after.demo())
            &&& after.index() == before.index()
            &&& after.hud() == before.hud()
            &&& after.reveal_end() == before.reveal_end()
            &&& after.reload_pending() == before.reload_pending()
        },
    }
}

/// What an event the router does not claim does to the running demo.
pub open spec fn demo_event_step<P, R>(
    before: DemoState<P, R>,
    input: WindowInput<P>,
    time_ms: u64,
    after: DemoState<P, R>,
) -> bool {
    &&& demo_kind(after) == demo_kind(before)
    &&& match (before, after) {
        (DemoState::Memories(b), DemoState::Memories(a)) => match input {
            WindowInput::Pointer(pointer) => MemoryTrails::pointer_step(b.trails, pointer, time_ms, a.trails),
            _ => a == b,
        },
        (DemoState::Climate(b), DemoState::Climate(a)) => match input {
            WindowInput::KeyPressed(key) => a == demo_03::key_step(b, key),
            _ => a == b,
        },
        _ => after == before,
    }
}

/// Routes a window event at `app_time_ms`: F asks the caller to toggle
/// fullscreen, H flips the overlay, R restarts the demo, Left and Right switch
/// demos; every other event goes to the running demo. `rotation_delta` is the
/// step a restarted squares demo gets.
pub fn window_event<P: Copy, R>(
    model: &mut Model<P, R>,
    input: &WindowInput<P>,
    app_time_ms: u64,
    rotation_delta: R,
) -> (action: RouterAction)
    requires
        old(model).wf(),
    ensures
        router_step(*old(model), *input, app_time_ms, rotation_delta, *final(model), action),
{
    match input {
        WindowInput::KeyPressed(Key::F) => RouterAction::ToggleFullscreen,
        WindowInput::KeyPressed(Key::H) => {
            toggle_status_overlay(model);
            RouterAction::Nothing
        },
        WindowInput::KeyPressed(Key::R) => {
            reload_current_demo(model, rotation_delta);
            RouterAction::Nothing
        },
        WindowInput::KeyPressed(Key::Left) => {
            select_previous_demo(model, app_time_ms, rotation_delta);
            RouterAction::Nothing
        },
        WindowInput::KeyPressed(Key::Right) => {
            select_next_demo(model, app_time_ms, rotation_delta);
            RouterAction::Nothing
        },
        _ => {
            model.demo_state.window_event(input, app_time_ms);
            RouterAction::Nothing
        },
    }
}

/// The largest frame rate the overlay shows, in hundredths.
pub const FPS_DISPLAY_MAX_HUNDREDTHS: u64 = 99_999;

/// A frame rate given in hundredths, capped at 999.99, as six characters:
/// three integer digits (zero-padded), a point, two decimals.
pub open spec fn fps_text(hundredths: u64) -> Seq<char> {
    let capped = if hundredths > FPS_DISPLAY_MAX_HUNDREDTHS { FPS_DISPLAY_MAX_HUNDREDTHS } else { hundredths };
    zero_padded((capped / 100) as nat, 3) + "."@ + zero_padded((capped % 100) as nat, 2)
}

pub fn format_fps(hundredths: u64) -> (text: String)
    ensures
        text@ == fps_text(hundredths),
        text@.len() == 6,
{
    let capped = if hundredths > FPS_DISPLAY_MAX_HUNDREDTHS { FPS_DISPLAY_MAX_HUNDREDTHS } else { hundredths };
    let mut text = String::new();
    push_zero_padded(&mut text, capped / 100, 3);
    text.append(".");
    push_zero_padded(&mut text, capped % 100, 2);
    proof {
        reveal_strlit(".");
        lemma_zero_padded_len((capped / 100) as nat, 3);
        lemma_zero_padded_len((capped % 100) as nat, 2);
    }
    text
}

proof fn lemma_decimal_len_small(n: nat)
    ensures
        n < 10 ==> decimal(n).len() == 1,
        10 <= n < 100 ==> decimal(n).len() == 2,
        100 <= n < 1000 ==> decimal(n).len() == 3,
{
    if n >= 10 {
        assert(decimal(n) == decimal(n / 10).push(crate::text::digit_char(n % 10)));
        if n >= 100 {
            assert(decimal(n / 10) == decimal(n / 100).push(crate::text::digit_char((n / 10) % 10)));
        }
    }
}

proof fn lemma_zero_padded_len(n: nat, width: nat)
    requires
        width == 2 || width == 3,
        width == 2 ==> n < 100,
        width == 3 ==> n < 1000,
    ensures
        zero_padded(n, width).len() == width,
{
    lemma_decimal_len_small(n);
}

/// The application part of the status overlay: the frame rate (hundredths)
/// and the router's keys.
pub open spec fn status_text(fps_hundredths: u64) -> Seq<char> {
    "FPS: "@ + fps_text(fps_hundredths) + "\nKeys: ←, →, F, H, R, Esc"@
}

pub fn status_overlay_text(fps_hundredths: u64) -> (text: String)
    ensures
        text@ == status_text(fps_hundredths),
{
    let mut text = String::from_str("FPS: ");
    let fps = format_fps(fps_hundredths);
    text.append(fps.as_str());
    text.append("\nKeys: ←, →, F, H, R, Esc");
    text
}

/// The number of text lines an overlay box is sized for: the lines of `text`,
/// but at least one.
pub fn status_line_count(text: &str) -> (count: usize)
    ensures
        count == if line_count(text@) == 0 { 1 } else { line_count(text@) },
{
    let lines = count_lines(text);
    if lines == 0 { 1 } else { lines }
}

/// Switching to the next demo and then to the previous one (or the other way
/// round) comes back to the same demo.
pub proof fn previous_undoes_next(index: nat)
    requires
        index < DEMO_COUNT,
    ensures
        previous_index(next_index(index)) == index,
        next_index(previous_index(index)) == index,
{
}

/// Switching demos stays in range, and `DEMO_COUNT` switches in one direction
/// come back to the start.
pub proof fn switching_cycles_through_all_demos(index: nat)
    requires
        index < DEMO_COUNT,
    ensures
        next_index(index) < DEMO_COUNT,
        previous_index(index) < DEMO_COUNT,
        next_index(next_index(next_index(next_index(index)))) == index,
        previous_index(previous_index(previous_index(previous_index(index)))) == index,
{
}

/// Wrapping an index is idempotent, and indices already in range are kept.
pub proof fn normalizing_is_idempotent(index: nat)
    ensures
        (index % (DEMO_COUNT as nat)) % (DEMO_COUNT as nat) == index % (DEMO_COUNT as nat),
        index < DEMO_COUNT ==> index % (DEMO_COUNT as nat) == index,
{
}

/// An overlay that is switched on shows at every time, and a demo switch
/// leaves its reveal untouched.
pub proof fn visible_overlay_ignores_demo_switches(until: Option<u64>, switch_ms: u64, time_ms: u64)
    ensures
        reveal_until(true, until, switch_ms) == until,
        overlay_visible_at(true, until, time_ms),
{
}

/// With the overlay switched off, a demo switch at `switch_ms` shows it exactly
/// until the reveal period has passed.
pub proof fn hidden_overlay_shows_for_reveal_period(until: Option<u64>, switch_ms: u64, time_ms: u64)
    requires
        switch_ms + HUD_DEMO_SWITCH_REVEAL_MS <= u64::MAX,
    ensures
        overlay_visible_at(false, reveal_until(false, until, switch_ms), time_ms)
            <==> time_ms < switch_ms + HUD_DEMO_SWITCH_REVEAL_MS,
{
}

/// Dropping an expired reveal never changes whether the overlay shows, then
/// or at any later time.
pub proof fn clearing_expired_reveal_keeps_visibility(
    hud_visible: bool,
    until: Option<u64>,
    cleared_at_ms: u64,
    time_ms: u64,
)
    requires
        cleared_at_ms <= time_ms,
    ensures
        overlay_visible_at(hud_visible, cleared_reveal(until, cleared_at_ms), time_ms)
            == overlay_visible_at(hud_visible, until, time_ms),
{
}

/// Pressing H twice restores the overlay setting.
pub proof fn toggling_overlay_twice_restores<P, R>(
    m0: Model<P, R>,
    a1: RouterAction,
    m1: Model<P, R>,
    a2: RouterAction,
    m2: Model<P, R>,
    r1: R,
    r2: R,
    t1: u64,
    t2: u64,
)
    requires
        m0.wf(),
        router_step(m0, WindowInput::KeyPressed(Key::H), t1, r1, m1, a1),
        router_step(m1, WindowInput::KeyPressed(Key::H), t2, r2, m2, a2),
    ensures
        m2.hud() == m0.hud(),
        m2.index() == m0.index(),
        m2.demo() == m0.demo(),
        m2.reveal_end() is None,
{
}

/// Pressing Right and then Left (or Left and then Right) comes back to the
/// demo that was running, started afresh.
pub proof fn switching_back_returns_to_the_same_demo<P, R>(
    m0: Model<P, R>,
    first: Key,
    a1: RouterAction,
    m1: Model<P, R>,
    a2: RouterAction,
    m2: Model<P, R>,
    r1: R,
    r2: R,
    t1: u64,
    t2: u64,
)
    requires
        m0.wf(),
        first == Key::Left || first == Key::Right,
        router_step(m0, WindowInput::KeyPressed(first), t1, r1, m1, a1),
        router_step(
            m1,
            WindowInput::KeyPressed(if first == Key::Left { Key::Right } else { Key::Left }),
            t2,
            r2,
            m2,
            a2,
        ),
    ensures
        m2.index() == m0.index(),
        is_fresh_demo(m2.demo(), m0.index(), r2),
        m2.hud() == m0.hud(),
        a1 == RouterAction::Nothing,
        a2 == RouterAction::Nothing,
{
    previous_undoes_next(m0.index());
}

} // verus!
