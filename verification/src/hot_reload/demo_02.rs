//! The memories demo: a live cursor trail plus trails recorded while the left
//! button is held, replayed after release. Input outside the content area of
//! the viewport is ignored.
use vstd::prelude::*;
use crate::hot_reload::{DemoHud, WindowInput};
use crate::trails::{MemoryTrails, PointerInput};

verus! {

#[derive(Debug)]
pub struct State<P> {
    pub trails: MemoryTrails<P>,
}

impl<P> State<P> {
    pub open spec fn wf(&self) -> bool {
        self.trails.wf()
    }

    /// No trails yet.
    pub fn new() -> (state: Self)
        ensures
            state.wf(),
            state.trails.cursor() == Seq::<P>::empty(),
            !state.trails.recording(),
            state.trails.recorded() == Seq::<P>::empty(),
            state.trails.saved() == Seq::<(Seq<P>, u64)>::empty(),
    {
        State { trails: MemoryTrails::new() }
    }
}

/// Pointer events go to the trail recorder (see `MemoryTrails::handle_pointer`);
/// key and other events change nothing.
pub fn window_event<P: Copy>(state: &mut State<P>, input: &WindowInput<P>, time_ms: u64)
    requires
        old(state).wf(),
    ensures
        final(state).wf(),
        match *input {
            WindowInput::Pointer(pointer) => MemoryTrails::pointer_step(
                old(state).trails,
                pointer,
                time_ms,
                final(state).trails,
            ),
            _ => *final(state) == *old(state),
        },
{
    match input {
        WindowInput::Pointer(pointer) => {
            let pointer = pointer.copy_input();
            state.trails.handle_pointer(pointer, time_ms);
        },
        _ => {},
    }
}

pub open spec fn hud_text() -> Seq<char> {
    "Memories\nInput:\n• Left-mouse = Create Memory\n• Right-mouse = Clear Memory"@
}

pub fn render_hud<P>(_state: &State<P>) -> (hud: DemoHud)
    ensures
        hud.demo_hud_text@ == hud_text(),
{
    DemoHud {
        demo_hud_text: String::from_str(
            "Memories\nInput:\n• Left-mouse = Create Memory\n• Right-mouse = Clear Memory",
        ),
    }
}

} // verus!
