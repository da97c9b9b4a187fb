use nannou_creative_coding::hot_reload::demo_03::{self, DensityLevel};
use nannou_creative_coding::hot_reload::{Key, WindowInput};
use nannou_creative_coding::sketch;
use nannou_creative_coding::trails::{
    trim_positions, MemoryTrails, MouseButton, PointerInput, MOUSE_TRAIL_LENGTH,
};

fn moved(x: i32, inside: bool) -> PointerInput<i32> {
    PointerInput::Moved { position: x, inside }
}

#[test]
fn cursor_trail_keeps_only_the_most_recent_points() {
    let mut trails = MemoryTrails::new();
    for x in 0..40 {
        trails.handle_pointer(moved(x, true), 0);
    }
    let expected: Vec<i32> = (10..40).collect();
    assert_eq!(trails.cursor_positions(), &expected);
    assert_eq!(trails.cursor_positions().len(), MOUSE_TRAIL_LENGTH);
    assert!(!trails.is_recording());
}

#[test]
fn trim_positions_drops_oldest_first() {
    let mut short = vec![1, 2, 3];
    trim_positions(&mut short);
    assert_eq!(short, vec![1, 2, 3]);
    let mut long: Vec<u32> = (0..31).collect();
    trim_positions(&mut long);
    assert_eq!(long, (1..31).collect::<Vec<u32>>());
}

#[test]
fn moves_outside_the_region_are_ignored() {
    let mut trails = MemoryTrails::new();
    trails.handle_pointer(moved(1, false), 0);
    assert!(trails.cursor_positions().is_empty());
}

#[test]
fn release_saves_recording_with_more_than_one_point() {
    let mut trails = MemoryTrails::new();
    trails.handle_pointer(PointerInput::Pressed { button: MouseButton::Left, position: 5, inside: true }, 0);
    assert!(trails.is_recording());
    assert_eq!(trails.recording_positions(), &vec![5]);
    // A single point is dropped on release.
    trails.handle_pointer(PointerInput::Released { button: MouseButton::Left }, 100);
    assert!(!trails.is_recording());
    assert_eq!(trails.memory_count(), 0);
    assert!(trails.recording_positions().is_empty());

    trails.handle_pointer(PointerInput::Pressed { button: MouseButton::Left, position: 1, inside: true }, 200);
    trails.handle_pointer(moved(2, true), 250);
    trails.handle_pointer(PointerInput::Released { button: MouseButton::Left }, 300);
    assert_eq!(trails.memory_count(), 1);
    assert_eq!(trails.playback_trails()[0].points, vec![1, 2]);
    assert_eq!(trails.playback_trails()[0].started_at_ms, 300);
    assert!(trails.recording_positions().is_empty());
}

#[test]
fn release_without_recording_changes_nothing() {
    let mut trails: MemoryTrails<i32> = MemoryTrails::new();
    trails.handle_pointer(PointerInput::Released { button: MouseButton::Left }, 10);
    trails.handle_pointer(PointerInput::Released { button: MouseButton::Right }, 10);
    assert_eq!(trails.memory_count(), 0);
    assert!(!trails.is_recording());
}

#[test]
fn right_press_clears_memories_and_restarts_recording() {
    let mut trails = MemoryTrails::new();
    for round in 0..2 {
        trails.handle_pointer(PointerInput::Pressed { button: MouseButton::Left, position: round, inside: true }, 0);
        trails.handle_pointer(moved(round + 10, true), 0);
        trails.handle_pointer(PointerInput::Released { button: MouseButton::Left }, 0);
    }
    assert_eq!(trails.memory_count(), 2);

    trails.handle_pointer(PointerInput::Pressed { button: MouseButton::Left, position: 7, inside: true }, 0);
    trails.handle_pointer(PointerInput::Pressed { button: MouseButton::Right, position: 8, inside: true }, 0);
    assert_eq!(trails.memory_count(), 0);
    assert!(trails.is_recording());
    assert_eq!(trails.recording_positions(), &vec![8]);

    // Outside the region a right press is ignored.
    trails.handle_pointer(PointerInput::Pressed { button: MouseButton::Right, position: 9, inside: false }, 0);
    assert_eq!(trails.recording_positions(), &vec![8]);
}

#[test]
fn a_second_left_press_while_recording_is_ignored() {
    let mut trails = MemoryTrails::new();
    trails.handle_pointer(PointerInput::Pressed { button: MouseButton::Left, position: 1, inside: true }, 0);
    trails.handle_pointer(moved(2, true), 0);
    trails.handle_pointer(PointerInput::Pressed { button: MouseButton::Left, position: 3, inside: true }, 0);
    assert_eq!(trails.recording_positions(), &vec![1, 2]);
}

#[test]
fn density_levels_cycle_and_name_themselves() {
    assert_eq!(DensityLevel::Low.next(), DensityLevel::Medium);
    assert_eq!(DensityLevel::Medium.next(), DensityLevel::High);
    assert_eq!(DensityLevel::High.next(), DensityLevel::Low);
    assert_eq!(DensityLevel::High.next().next().next(), DensityLevel::High);
    assert_eq!(DensityLevel::Medium.label(), "Medium");
    assert_eq!(demo_03::color_resolution(DensityLevel::Low), (31, 20));
    assert_eq!(demo_03::color_resolution(DensityLevel::Medium), (62, 40));
    assert_eq!(demo_03::color_resolution(DensityLevel::High), (125, 80));
}

#[test]
fn climate_keys_switch_layers() {
    let mut state = demo_03::State::new();
    demo_03::window_event(&mut state, &WindowInput::<i32>::KeyPressed(Key::C));
    demo_03::window_event(&mut state, &WindowInput::<i32>::KeyPressed(Key::C));
    demo_03::window_event(&mut state, &WindowInput::<i32>::KeyPressed(Key::F));
    assert_eq!(state.color_resolution, DensityLevel::Low);
    assert!(state.show_arrows);
    assert_eq!(
        demo_03::render_hud(&state).demo_hud_text,
        "Climate\nInput: A = Arrows (On)\nInput: T = Trails (Low)\nInput: C = Colors (Low)\nInput: S = Speed (Low)"
    );
}

#[test]
fn sketch_records_memories_and_formats_its_overlay() {
    let mut model = sketch::Model::new();
    let press = WindowInput::Pointer(PointerInput::Pressed { button: MouseButton::Left, position: 1, inside: true });
    sketch::window_event(&mut model, &press, 0);
    sketch::window_event(&mut model, &WindowInput::Pointer(moved(2, true)), 0);
    sketch::window_event(&mut model, &WindowInput::Pointer(PointerInput::Released { button: MouseButton::Left }), 40);
    assert_eq!(model.trails.memory_count(), 1);
    model.was_updated = true;
    sketch::update(&mut model);
    assert!(!model.was_updated);
    assert_eq!(
        sketch::status_overlay_text(1195, model.trails.memory_count() as u64),
        "FPS 119.5\nMemories: 001\n* Hold Left Mouse = Start Memory\n* Release Left Mouse = End Memory\n* Right Mouse = Clear Memories"
    );
    assert!(sketch::status_overlay_text(0, 1234).contains("FPS 0.0\nMemories: 1234\n"));
}
