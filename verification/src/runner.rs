//! The desktop runner's rules: frame pacing, the saved window state, how a
//! saved window is restored, and where a new window is centred.
use vstd::prelude::*;

verus! {

/// The frame rate the runner aims for.
pub const TARGET_FPS: u64 = 120;

/// The frame interval of a 120 fps target, in nanoseconds.
pub const TARGET_FRAME_INTERVAL_NANOS: u64 = 8_333_333;

/// How long to sleep after a frame that took `elapsed_since_last_update_nanos`
/// so that frames come no faster than the target: the rest of the interval, or
/// nothing once the interval has passed.
pub fn target_frame_sleep_duration(elapsed_since_last_update_nanos: u64) -> (sleep: Option<u64>)
    ensures
        elapsed_since_last_update_nanos <= TARGET_FRAME_INTERVAL_NANOS ==> sleep == Some(
            (TARGET_FRAME_INTERVAL_NANOS - elapsed_since_last_update_nanos) as u64,
        ),
        elapsed_since_last_update_nanos > TARGET_FRAME_INTERVAL_NANOS ==> sleep is None,
{
    TARGET_FRAME_INTERVAL_NANOS.checked_sub(elapsed_since_last_update_nanos)
}

/// Rust's `/` by two on integers: the quotient rounded towards zero.
pub open spec fn half_toward_zero(a: int) -> int {
    if a >= 0 { a / 2 } else { -((-a) / 2) }
}

/// The outer position that centres a `window_width` x `window_height` window on
/// a monitor at (`monitor_x`, `monitor_y`) of the given size.
pub fn centered_window_position(
    monitor_x: i32,
    monitor_y: i32,
    monitor_width: u32,
    monitor_height: u32,
    window_width: u32,
    window_height: u32,
) -> (position: (i32, i32))
    requires
        monitor_width <= i32::MAX,
        monitor_height <= i32::MAX,
        window_width <= i32::MAX,
        window_height <= i32::MAX,
        i32::MIN <= monitor_x + half_toward_zero(monitor_width - window_width) <= i32::MAX,
        i32::MIN <= monitor_y + half_toward_zero(monitor_height - window_height) <= i32::MAX,
    ensures
        position.0 == monitor_x + half_toward_zero(monitor_width - window_width),
        position.1 == monitor_y + half_toward_zero(monitor_height - window_height),
{
    let dx = (monitor_width as i32 - window_width as i32) / 2;
    let dy = (monitor_height as i32 - window_height as i32) / 2;
    (monitor_x + dx, monitor_y + dy)
}

/// A saved outer window position, in physical pixels.
#[derive(Clone, Copy, Debug, PartialEq, Eq, Structural)]
pub struct StoredPosition {
    pub x: i32,
    pub y: i32,
}

/// A saved inner window size, in physical pixels.
#[derive(Clone, Copy, Debug, PartialEq, Eq, Structural)]
pub struct StoredSize {
    pub width: u32,
    pub height: u32,
}

/// A monitor as saved: its name (if it has one) and its geometry.
#[derive(Debug)]
pub struct StoredMonitor {
    pub name: Option<String>,
    pub x: i32,
    pub y: i32,
    pub width: u32,
    pub height: u32,
}

/// What the runner saves between runs.
#[derive(Debug)]
pub struct StoredWindow {
    pub fullscreen: bool,
    pub position: Option<StoredPosition>,
    pub size: Option<StoredSize>,
    pub monitor: Option<StoredMonitor>,
    pub demo_index: usize,
    pub hud_visible: bool,
}

/// The overlay is shown unless a saved state says otherwise.
pub fn default_hud_visible() -> (visible: bool)
    ensures
        visible,
{
    true
}

impl Default for StoredWindow {
    /// Windowed, no saved placement, first demo, overlay shown.
    fn default() -> (window: Self)
        ensures
            !window.fullscreen,
            window.position is None,
            window.size is None,
            window.monitor is None,
            window.demo_index == 0,
            window.hud_visible,
    {
        StoredWindow {
            fullscreen: false,
            position: None,
            size: None,
            monitor: None,
            demo_index: 0,
            hud_visible: default_hud_visible(),
        }
    }
}

/// Two monitor names are the same: both absent, or both present and equal.
pub open spec fn same_name(a: Option<String>, b: Option<String>) -> bool {
    match (a, b) {
        (None, None) => true,
        (Some(x), Some(y)) => x@ == y@,
        _ => false,
    }
}

/// A monitor is the saved one when name, position and size all agree (names
/// alone can repeat).
pub open spec fn is_saved_monitor(saved: StoredMonitor, candidate: StoredMonitor) -> bool {
    &&& same_name(candidate.name, saved.name)
    &&& candidate.x == saved.x
    &&& candidate.y == saved.y
    &&& candidate.width == saved.width
    &&& candidate.height == saved.height
}

pub fn monitor_matches(saved: &StoredMonitor, candidate: &StoredMonitor) -> (matches: bool)
    ensures
        matches == is_saved_monitor(*saved, *candidate),
{
    let names_match = match (&candidate.name, &saved.name) {
        (None, None) => true,
        (Some(x), Some(y)) => x.eq(y),
        _ => false,
    };
    names_match && candidate.x == saved.x && candidate.y == saved.y && candidate.width
        == saved.width && candidate.height == saved.height
}

/// The first available monitor that is the saved one, by index.
pub fn find_monitor(saved: &StoredMonitor, available: &Vec<StoredMonitor>) -> (found: Option<usize>)
    ensures
        match found {
            Some(i) => {
                &&& i < available@.len()
                &&& is_saved_monitor(*saved, available@[i as int])
                &&& forall|j: int| 0 <= j < i ==> !is_saved_monitor(*saved, #[trigger] available@[j])
            },
            None => forall|j: int|
                0 <= j < available@.len() ==> !is_saved_monitor(*saved, #[trigger] available@[j]),
        },
{
    let mut i: usize = 0;
    while i < available.len()
        invariant
            i <= available@.len(),
            forall|j: int| 0 <= j < i ==> !is_saved_monitor(*saved, #[trigger] available@[j]),
        decreases available@.len() - i,
    {
        if monitor_matches(saved, &available[i]) {
            return Some(i);
        }
        i = i + 1;
    }
    None
}

/// How to place the window at start-up.
#[derive(Debug)]
pub enum RestorePlan {
    /// Borderless fullscreen on the saved monitor when it is still there
    /// (`monitor` is the one to look for), else on the primary monitor.
    Fullscreen { monitor: Option<StoredMonitor> },
    /// Apply the saved size, if any, then move to the saved position.
    Place { size: Option<StoredSize>, position: StoredPosition },
    /// Apply the saved size, if any, then centre on the primary monitor.
    Center { size: Option<StoredSize> },
}

/// Fullscreen wins; otherwise a saved size is applied, and the saved position
/// is used when there is one, else the window is centred. Without a saved
/// state the window is centred at its default size.
pub open spec fn plan_for(saved: Option<StoredWindow>) -> RestorePlan {
    match saved {
        Some(w) => if w.fullscreen {
            RestorePlan::Fullscreen { monitor: w.monitor }
        } else {
            match w.position {
                Some(position) => RestorePlan::Place { size: w.size, position },
                None => RestorePlan::Center { size: w.size },
            }
        },
        None => RestorePlan::Center { size: None },
    }
}

pub fn restore_plan(saved: Option<StoredWindow>) -> (plan: RestorePlan)
    ensures
        plan == plan_for(saved),
{
    match saved {
        Some(w) => {
            if w.fullscreen {
                RestorePlan::Fullscreen { monitor: w.monitor }
            } else {
                match w.position {
                    Some(position) => RestorePlan::Place { size: w.size, position },
                    None => RestorePlan::Center { size: w.size },
                }
            }
        },
        None => RestorePlan::Center { size: None },
    }
}

/// A windowed saved state keeps its saved size whether or not a position was
/// saved: the window moves to the saved position when there is one, and is
/// centred otherwise. A fullscreen state goes fullscreen on its saved monitor.
pub proof fn restore_keeps_the_saved_size(saved: StoredWindow, plan: RestorePlan)
    requires
        plan == plan_for(Some(saved)),
    ensures
        saved.fullscreen ==> (plan is Fullscreen && plan->Fullscreen_monitor == saved.monitor),
        !saved.fullscreen && saved.position is Some ==> (plan is Place && plan->Place_size
            == saved.size && Some(plan->position) == saved.position),
        !saved.fullscreen && saved.position is None ==> (plan is Center && plan->Center_size
            == saved.size),
{
}

/// A monitor is the saved one exactly when its name, x, y, width and height all
/// equal the saved ones; the index `find_monitor` returns names such a monitor.
pub proof fn matching_monitors_agree_on_name_and_geometry(saved: StoredMonitor, candidate: StoredMonitor)
    ensures
        is_saved_monitor(saved, candidate) ==> (candidate.name is None <==> saved.name is None),
        is_saved_monitor(saved, candidate) && candidate.name is Some ==> candidate.name->0@
            == saved.name->0@,
        is_saved_monitor(saved, candidate) ==> candidate.x == saved.x && candidate.y == saved.y
            && candidate.width == saved.width && candidate.height == saved.height,
        candidate.name is None && saved.name is None && candidate.x == saved.x && candidate.y
            == saved.y && candidate.width == saved.width && candidate.height == saved.height
            ==> is_saved_monitor(saved, candidate),
        candidate.name is Some && saved.name is Some && candidate.name->0@ == saved.name->0@
            && candidate.x == saved.x && candidate.y == saved.y && candidate.width == saved.width
            && candidate.height == saved.height ==> is_saved_monitor(saved, candidate),
{
}

} // verus!
