use nannou_creative_coding::hot_reload::demo_01;
use nannou_creative_coding::hot_reload::demo_02;
use nannou_creative_coding::hot_reload::demo_03;
use nannou_creative_coding::hot_reload::demo_04;
use nannou_creative_coding::hot_reload::demo_05;
use nannou_creative_coding::hot_reload::{
    clear_expired_temporary_hud, format_fps, normalize_demo_index, reload_current_demo,
    reveal_hud_for_demo_switch, select_next_demo, select_previous_demo, status_line_count,
    status_overlay_text, toggle_status_overlay, update, window_event, DemoState, Key, Model,
    RouterAction, WindowInput, HUD_DEMO_SWITCH_REVEAL_MS,
};
use nannou_creative_coding::trails::{MouseButton, PointerInput};

type Point = (f32, f32);
type SketchModel = Model<Point, f32>;

const TEMPLATE: &str = "demo_01: Template\nInput: None";
const MEMORIES: &str =
    "demo_02: Memories\nInput:\n• Left-mouse = Create Memory\n• Right-mouse = Clear Memory";
const CLIMATE: &str = "demo_03: Climate\nInput: A = Arrows (On)\nInput: T = Trails (Low)\nInput: C = Colors (Medium)\nInput: S = Speed (Low)";
const SQUARES: &str = "demo_04: Squares\nInput: None";

fn hud_of(model: &SketchModel) -> String {
    model.demo_state().render_hud().demo_hud_text
}

#[test]
fn formats_fps_with_two_decimal_places() {
    assert_eq!(format_fps(12_000), "120.00");
    assert_eq!(format_fps(940), "009.40");
}

#[test]
fn caps_fps_display_length() {
    assert_eq!(format_fps(123_456), "999.99");
    assert!(format_fps(123_456).len() <= "999.99".len());
}

#[test]
fn demo_selection_wraps() {
    let mut model = SketchModel::new(0.1);
    assert_eq!(hud_of(&model), TEMPLATE);

    select_next_demo(&mut model, 0, 0.1);
    assert_eq!(hud_of(&model), MEMORIES);

    select_next_demo(&mut model, 0, 0.1);
    assert_eq!(hud_of(&model), CLIMATE);

    select_next_demo(&mut model, 0, 0.1);
    assert_eq!(hud_of(&model), SQUARES);

    select_next_demo(&mut model, 0, 0.1);
    assert_eq!(hud_of(&model), TEMPLATE);

    select_previous_demo(&mut model, 0, 0.1);
    assert_eq!(hud_of(&model), SQUARES);

    select_previous_demo(&mut model, 0, 0.1);
    assert_eq!(hud_of(&model), CLIMATE);

    select_previous_demo(&mut model, 0, 0.1);
    assert_eq!(hud_of(&model), MEMORIES);
}

#[test]
fn reload_keeps_current_demo() {
    let mut model = SketchModel::new(0.1);
    select_next_demo(&mut model, 0, 0.1);

    reload_current_demo(&mut model, 0.1);

    assert_eq!(hud_of(&model), MEMORIES);
}

#[test]
fn model_can_start_on_saved_demo_index() {
    let model = SketchModel::new_with_demo_index(1, 0.1);

    assert_eq!(model.current_demo_index(), 1);
    assert_eq!(hud_of(&model), MEMORIES);
}

#[test]
fn saved_demo_index_wraps_to_available_demo() {
    let model = SketchModel::new_with_demo_index(3, 0.1);

    assert_eq!(model.current_demo_index(), 3);
    assert_eq!(hud_of(&model), SQUARES);

    let model = SketchModel::new_with_demo_index(4, 0.1);

    assert_eq!(model.current_demo_index(), 0);
    assert_eq!(hud_of(&model), TEMPLATE);
}

#[test]
fn model_can_start_with_hidden_hud() {
    let model = SketchModel::new_with_settings(0, false, 0.1);

    assert!(!model.hud_visible());
    assert!(!model.status_overlay_visible(0));
}

#[test]
fn hidden_hud_reveals_temporarily_after_demo_switch() {
    let mut model = SketchModel::new_with_settings(0, false, 0.1);

    reveal_hud_for_demo_switch(&mut model, 1_000);

    assert!(model.status_overlay_visible(1_000));
    assert!(model.status_overlay_visible(1_000 + HUD_DEMO_SWITCH_REVEAL_MS - 100));
    assert!(!model.status_overlay_visible(1_000 + HUD_DEMO_SWITCH_REVEAL_MS));
}

#[test]
fn visible_hud_stays_visible_after_demo_switch() {
    let mut model = SketchModel::new_with_settings(0, true, 0.1);

    reveal_hud_for_demo_switch(&mut model, 1_000);

    assert!(model.hud_visible());
    assert!(model.status_overlay_visible(1_000 + HUD_DEMO_SWITCH_REVEAL_MS));
}

#[test]
fn expired_temporary_hud_state_is_cleared() {
    let mut model = SketchModel::new_with_settings(0, false, 0.1);
    model.set_temporary_hud_visible_until(Some(900));

    clear_expired_temporary_hud(&mut model, 1_000);

    assert_eq!(model.temporary_hud_visible_until(), None);
}

#[test]
fn demo_01_declares_its_hud() {
    let state = demo_01::State::new();
    let hud = demo_01::render_hud(&state);

    assert_eq!(hud.demo_hud_text, "Template\nInput: None");
}

#[test]
fn demo_02_declares_its_hud() {
    let state = demo_02::State::<Point>::new();
    let hud = demo_02::render_hud(&state);

    assert_eq!(
        hud.demo_hud_text,
        "Memories\nInput:\n• Left-mouse = Create Memory\n• Right-mouse = Clear Memory"
    );
}

#[test]
fn demo_03_declares_its_hud() {
    let state = demo_03::State::new();
    let hud = demo_03::render_hud(&state);

    assert_eq!(
        hud.demo_hud_text,
        "Climate\nInput: A = Arrows (On)\nInput: T = Trails (Low)\nInput: C = Colors (Medium)\nInput: S = Speed (Low)"
    );
}

#[test]
fn demo_04_declares_its_hud() {
    let state = demo_04::State::new(0.1f32);
    let hud = demo_04::render_hud(&state);

    assert_eq!(hud.demo_hud_text, "Squares\nInput: None");
}

#[test]
fn demo_05_declares_its_hud() {
    let state = demo_05::State::new();
    assert_eq!(demo_05::render_hud(&state).demo_hud_text, "Pi Radius\nInput: None");
}

#[test]
fn router_keys_switch_reload_toggle_and_forward() {
    let mut model = SketchModel::new_with_settings(2, true, 0.1);
    assert_eq!(
        window_event(&mut model, &WindowInput::KeyPressed(Key::F), 0, 0.1),
        RouterAction::ToggleFullscreen
    );
    assert_eq!(model.current_demo_index(), 2);

    // A and T reach the climate demo.
    window_event(&mut model, &WindowInput::KeyPressed(Key::A), 0, 0.1);
    window_event(&mut model, &WindowInput::KeyPressed(Key::T), 0, 0.1);
    assert_eq!(
        hud_of(&model),
        "demo_03: Climate\nInput: A = Arrows (Off)\nInput: T = Trails (Medium)\nInput: C = Colors (Medium)\nInput: S = Speed (Low)"
    );

    // R restarts it with its initial settings.
    window_event(&mut model, &WindowInput::KeyPressed(Key::R), 0, 0.1);
    assert_eq!(hud_of(&model), CLIMATE);

    // H hides the overlay for good; H again shows it.
    window_event(&mut model, &WindowInput::KeyPressed(Key::H), 0, 0.1);
    assert!(!model.hud_visible());
    assert!(!model.status_overlay_visible(0));
    window_event(&mut model, &WindowInput::KeyPressed(Key::H), 0, 0.1);
    assert!(model.hud_visible());
    toggle_status_overlay(&mut model);

    // Right switches to the squares demo with the given rotation step and
    // reveals the hidden overlay for a while.
    window_event(&mut model, &WindowInput::KeyPressed(Key::Right), 5_000, 0.25);
    assert_eq!(model.current_demo_index(), 3);
    match model.demo_state() {
        DemoState::Squares(state) => assert_eq!(state.rotation_delta, 0.25),
        _ => panic!("expected the squares demo"),
    }
    assert!(model.status_overlay_visible(6_999));
    assert!(!model.status_overlay_visible(7_000));

    // Left goes back.
    window_event(&mut model, &WindowInput::KeyPressed(Key::Left), 5_000, 0.25);
    assert_eq!(model.current_demo_index(), 2);
}

#[test]
fn update_restarts_demo_after_new_code_and_clears_expired_reveal() {
    let mut model = SketchModel::new_with_settings(2, false, 0.1);
    window_event(&mut model, &WindowInput::KeyPressed(Key::S), 0, 0.1);
    reveal_hud_for_demo_switch(&mut model, 0);

    update(&mut model, 10, 0.1);
    assert!(hud_of(&model).ends_with("Speed (Medium)"));
    assert_eq!(model.temporary_hud_visible_until(), Some(HUD_DEMO_SWITCH_REVEAL_MS));

    model.set_was_updated(true);
    update(&mut model, HUD_DEMO_SWITCH_REVEAL_MS, 0.1);
    assert_eq!(hud_of(&model), CLIMATE);
    assert!(!model.was_updated());
    assert_eq!(model.temporary_hud_visible_until(), None);
}

#[test]
fn memories_demo_records_inside_the_viewport_only() {
    let mut model = SketchModel::new_with_demo_index(1, 0.1);
    let outside = WindowInput::Pointer(PointerInput::Pressed {
        button: MouseButton::Left,
        position: (900.0, 0.0),
        inside: false,
    });
    window_event(&mut model, &outside, 0, 0.1);
    for (i, x) in [1.0f32, 2.0, 3.0].iter().enumerate() {
        if i == 0 {
            let press = WindowInput::Pointer(PointerInput::Pressed {
                button: MouseButton::Left,
                position: (*x, 0.0),
                inside: true,
            });
            window_event(&mut model, &press, 0, 0.1);
        } else {
            let moved = WindowInput::Pointer(PointerInput::Moved { position: (*x, 0.0), inside: true });
            window_event(&mut model, &moved, 0, 0.1);
        }
    }
    let release = WindowInput::Pointer(PointerInput::Released { button: MouseButton::Left });
    window_event(&mut model, &release, 1_500, 0.1);
    match model.demo_state() {
        DemoState::Memories(state) => {
            assert_eq!(state.trails.memory_count(), 1);
            let saved = &state.trails.playback_trails()[0];
            assert_eq!(saved.points, vec![(1.0, 0.0), (2.0, 0.0), (3.0, 0.0)]);
            assert_eq!(saved.started_at_ms, 1_500);
            assert_eq!(state.trails.cursor_positions(), &vec![(2.0, 0.0), (3.0, 0.0)]);
        }
        _ => panic!("expected the memories demo"),
    }
}

#[test]
fn normalizes_indices_and_counts_overlay_lines() {
    assert_eq!(normalize_demo_index(0), 0);
    assert_eq!(normalize_demo_index(5), 1);
    assert_eq!(normalize_demo_index(usize::MAX), usize::MAX % 4);
    assert_eq!(status_line_count(""), 1);
    assert_eq!(status_line_count("a"), 1);
    assert_eq!(status_line_count("a\nb\n"), 2);
    assert_eq!(status_line_count(MEMORIES), 4);
    let text = status_overlay_text(11_950);
    assert_eq!(text, "FPS: 119.50\nKeys: ←, →, F, H, R, Esc");
    assert_eq!(status_line_count(&text), 2);
}
