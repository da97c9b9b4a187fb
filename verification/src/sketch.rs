//! The single-scene memories sketch: one window with two silhouettes, a live
//! cursor trail and replayed memories, and a fixed status overlay.
use vstd::prelude::*;
use crate::hot_reload::WindowInput;
use crate::text::{push_decimal, push_zero_padded, decimal, zero_padded};
use crate::trails::MemoryTrails;

verus! {

pub const WINDOW_WIDTH: u32 = 800;
pub const WINDOW_HEIGHT: u32 = 600;

/// The sketch's state (its frame-rate average is kept by the caller).
#[derive(Debug)]
pub struct Model<P> {
    pub trails: MemoryTrails<P>,
    pub was_updated: bool,
}

impl<P> Model<P> {
    pub open spec fn wf(&self) -> bool {
        self.trails.wf()
    }

    /// No trails, nothing recorded, no reload pending.
    pub fn new() -> (model: Self)
        ensures
            model.wf(),
            model.trails.cursor() == Seq::<P>::empty(),
            !model.trails.recording(),
            model.trails.recorded() == Seq::<P>::empty(),
            model.trails.saved() == Seq::<(Seq<P>, u64)>::empty(),
            !model.was_updated,
    {
        Model { trails: MemoryTrails::new(), was_updated: false }
    }
}

/// Pointer events go to the trail recorder (the whole window accepts input);
/// other events change nothing.
pub fn window_event<P: Copy>(model: &mut Model<P>, input: &WindowInput<P>, app_time_ms: u64)
    requires
        old(model).wf(),
    ensures
        final(model).wf(),
        final(model).was_updated == old(model).was_updated,
        match *input {
            WindowInput::Pointer(pointer) => MemoryTrails::pointer_step(
                old(model).trails,
                pointer,
                app_time_ms,
                final(model).trails,
            ),
            _ => final(model).trails == old(model).trails,
        },
{
    match input {
        WindowInput::Pointer(pointer) => {
            let pointer = pointer.copy_input();
            model.trails.handle_pointer(pointer, app_time_ms);
        },
        _ => {},
    }
}

/// Per-frame upkeep: clears the reload flag (the caller updates the frame-rate
/// average).
pub fn update<P>(model: &mut Model<P>)
    ensures
        !final(model).was_updated,
        final(model).trails == old(model).trails,
{
    model.was_updated = false;
}

/// The overlay text: the frame rate with one decimal (given in tenths), the
/// number of saved memories with at least three digits, and the controls.
pub open spec fn status_text(fps_tenths: u64, memories: u64) -> Seq<char> {
    "FPS "@ + decimal((fps_tenths / 10) as nat) + "."@ + decimal((fps_tenths % 10) as nat)
        + "\nMemories: "@ + zero_padded(memories as nat, 3)
        + "\n* Hold Left Mouse = Start Memory\n* Release Left Mouse = End Memory\n* Right Mouse = Clear Memories"@
}

pub fn status_overlay_text(fps_tenths: u64, memories: u64) -> (text: String)
    ensures
        text@ == status_text(fps_tenths, memories),
{
    let mut text = String::from_str("FPS ");
    push_decimal(&mut text, fps_tenths / 10);
    text.append(".");
    push_decimal(&mut text, fps_tenths % 10);
    text.append("\nMemories: ");
    push_zero_padded(&mut text, memories, 3);
    text.append(
        "\n* Hold Left Mouse = Start Memory\n* Release Left Mouse = End Memory\n* Right Mouse = Clear Memories",
    );
    text
}

} // verus!
