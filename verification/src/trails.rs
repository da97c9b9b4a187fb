//! The memory-trail recorder: a live cursor trail, a trail recorded while the
//! left button is held, and the saved trails that replay after release.
//!
//! Points are opaque to this module (`P`): the logic only stores, trims and
//! moves them, so it is stated for every point type.
use vstd::prelude::*;

verus! {

/// The number of most recent points a trail keeps.
pub const MOUSE_TRAIL_LENGTH: usize = 30;

/// A mouse button as the trail logic distinguishes it.
#[derive(Clone, Copy, Debug, PartialEq, Eq, Structural)]
pub enum MouseButton {
    Left,
    Right,
    Other,
}

/// A pointer event. `inside` says whether the pointer lies in the region the
/// sketch accepts input from; `position` is the point to record for it.
#[derive(Debug)]
pub enum PointerInput<P> {
    Moved { position: P, inside: bool },
    Pressed { button: MouseButton, position: P, inside: bool },
    Released { button: MouseButton },
}

/// A recorded trail and the time (in milliseconds) its replay started.
#[derive(Debug)]
pub struct PlaybackTrail<P> {
    pub points: Vec<P>,
    pub started_at_ms: u64,
}

/// The last `MOUSE_TRAIL_LENGTH` elements of `s` (all of `s` when shorter).
pub open spec fn keep_recent<P>(s: Seq<P>) -> Seq<P> {
    if s.len() > MOUSE_TRAIL_LENGTH {
        s.subrange(s.len() - MOUSE_TRAIL_LENGTH, s.len() as int)
    } else {
        s
    }
}

/// Trimming keeps the newest points in order and drops only the oldest ones.
pub proof fn trimming_keeps_the_newest_points<P>(s: Seq<P>)
    ensures
        keep_recent(s).len() <= MOUSE_TRAIL_LENGTH,
        keep_recent(s).len() == if s.len() > MOUSE_TRAIL_LENGTH { MOUSE_TRAIL_LENGTH as nat } else { s.len() },
        forall|i: int|
            0 <= i < keep_recent(s).len() ==> #[trigger] keep_recent(s)[i] == s[s.len() - keep_recent(s).len() + i],
{
}

/// The saved trails as (points, start time) pairs.
pub open spec fn trails_view<P>(trails: Seq<PlaybackTrail<P>>) -> Seq<(Seq<P>, u64)> {
    trails.map_values(|t: PlaybackTrail<P>| (t.points@, t.started_at_ms))
}

/// Drops the oldest points so that at most `MOUSE_TRAIL_LENGTH` remain.
pub fn trim_positions<P>(positions: &mut Vec<P>)
    ensures
        final(positions)@ == keep_recent(old(positions)@),
{
    if positions.len() > MOUSE_TRAIL_LENGTH {
        let kept = positions.split_off(positions.len() - MOUSE_TRAIL_LENGTH);
        *positions = kept;
    }
}

/// The state of one sketch's trails.
#[derive(Debug)]
pub struct MemoryTrails<P> {
    cursor_positions: Vec<P>,
    is_recording: bool,
    recording_positions: Vec<P>,
    playback_trails: Vec<PlaybackTrail<P>>,
}

impl<P> MemoryTrails<P> {
    /// Recent cursor points, oldest first.
    pub closed spec fn cursor(&self) -> Seq<P> {
        self.cursor_positions@
    }

    /// Whether the left button is held and a trail is being recorded.
    pub closed spec fn recording(&self) -> bool {
        self.is_recording
    }

    /// The points of the trail being recorded, oldest first.
    pub closed spec fn recorded(&self) -> Seq<P> {
        self.recording_positions@
    }

    /// The saved trails, oldest first.
    pub closed spec fn saved(&self) -> Seq<(Seq<P>, u64)> {
        trails_view(self.playback_trails@)
    }

    /// Every trail keeps at most `MOUSE_TRAIL_LENGTH` points, and every saved
    /// trail has at least two.
    pub open spec fn wf(&self) -> bool {
        &&& self.cursor().len() <= MOUSE_TRAIL_LENGTH
        &&& self.recorded().len() <= MOUSE_TRAIL_LENGTH
        &&& forall|i: int|
            0 <= i < self.saved().len() ==> 2 <= #[trigger] self.saved()[i].0.len()
                <= MOUSE_TRAIL_LENGTH
    }

    /// No points, not recording, no saved trails.
    pub fn new() -> (trails: Self)
        ensures
            trails.wf(),
            trails.cursor() == Seq::<P>::empty(),
            !trails.recording(),
            trails.recorded() == Seq::<P>::empty(),
            trails.saved() == Seq::<(Seq<P>, u64)>::empty(),
    {
        let trails = MemoryTrails {
            cursor_positions: Vec::with_capacity(MOUSE_TRAIL_LENGTH),
            is_recording: false,
            recording_positions: Vec::with_capacity(MOUSE_TRAIL_LENGTH),
            playback_trails: Vec::new(),
        };
        assert(trails.saved() =~= Seq::<(Seq<P>, u64)>::empty());
        trails
    }

    pub fn cursor_positions(&self) -> (points: &Vec<P>)
        ensures
            points@ == self.cursor(),
    {
        &self.cursor_positions
    }

    pub fn is_recording(&self) -> (recording: bool)
        ensures
            recording == self.recording(),
    {
        self.is_recording
    }

    pub fn recording_positions(&self) -> (points: &Vec<P>)
        ensures
            points@ == self.recorded(),
    {
        &self.recording_positions
    }

    pub fn playback_trails(&self) -> (trails: &Vec<PlaybackTrail<P>>)
        ensures
            trails_view(trails@) == self.saved(),
    {
        &self.playback_trails
    }

    /// The number of saved trails.
    pub fn memory_count(&self) -> (count: usize)
        ensures
            count == self.saved().len(),
    {
        self.playback_trails.len()
    }
}

impl<P> MemoryTrails<P> {
    /// What a pointer event at time `time_ms` does to the trails (see
    /// `handle_pointer`).
    pub open spec fn pointer_step(before: Self, input: PointerInput<P>, time_ms: u64, after: Self) -> bool {
        match input {
            PointerInput::Moved { position, inside } => if inside {
                &&& after.cursor() == keep_recent(before.cursor().push(position))
                &&& after.recorded() == if before.recording() {
                    keep_recent(before.recorded().push(position))
                } else {
                    before.recorded()
                }
                &&& after.recording() == before.recording()
                &&& after.saved() == before.saved()
            } else {
                after == before
            },
            PointerInput::Pressed { button: MouseButton::Left, position, inside } => if inside
                && !before.recording() {
                &&& after.recording()
                &&& after.recorded() == seq![position]
                &&& after.cursor() == before.cursor()
                &&& after.saved() == before.saved()
            } else {
                after == before
            },
            PointerInput::Released { button: MouseButton::Left } => if before.recording() {
                &&& !after.recording()
                &&& after.recorded() == Seq::<P>::empty()
                &&& after.cursor() == before.cursor()
                &&& after.saved() == if before.recorded().len() > 1 {
                    before.saved().push((before.recorded(), time_ms))
                } else {
                    before.saved()
                }
            } else {
                after == before
            },
            PointerInput::Pressed { button: MouseButton::Right, position, inside } => if inside {
                &&& after.saved() == Seq::<(Seq<P>, u64)>::empty()
                &&& after.recorded() == if before.recording() {
                    seq![position]
                } else {
                    Seq::<P>::empty()
                }
                &&& after.recording() == before.recording()
                &&& after.cursor() == before.cursor()
            } else {
                after == before
            },
            _ => after == before,
        }
    }
}

impl<P: Copy> PointerInput<P> {
    /// A copy of the event.
    pub fn copy_input(&self) -> (copy: Self)
        ensures
            copy == *self,
    {
        match self {
            PointerInput::Moved { position, inside } => PointerInput::Moved { position: *position, inside: *inside },
            PointerInput::Pressed { button, position, inside } => PointerInput::Pressed { button: *button, position: *position, inside: *inside },
            PointerInput::Released { button } => PointerInput::Released { button: *button },
        }
    }
}

impl<P: Copy> MemoryTrails<P> {
    /// Adds a point to the recorded trail, keeping the most recent ones.
    pub fn record_mouse_position(&mut self, position: P)
        ensures
            final(self).recorded() == keep_recent(old(self).recorded().push(position)),
            final(self).cursor() == old(self).cursor(),
            final(self).recording() == old(self).recording(),
            final(self).saved() == old(self).saved(),
    {
        self.recording_positions.push(position);
        trim_positions(&mut self.recording_positions);
    }

    /// Adds a point to the live cursor trail, keeping the most recent ones.
    pub fn record_cursor_position(&mut self, position: P)
        ensures
            final(self).cursor() == keep_recent(old(self).cursor().push(position)),
            final(self).recorded() == old(self).recorded(),
            final(self).recording() == old(self).recording(),
            final(self).saved() == old(self).saved(),
    {
        self.cursor_positions.push(position);
        trim_positions(&mut self.cursor_positions);
    }

    /// Applies a pointer event at time `time_ms`:
    /// - a move inside the region extends the cursor trail, and the recorded
    ///   trail while recording;
    /// - a left press inside the region while not recording starts a new
    ///   recording with the pressed point;
    /// - a left release while recording ends it, saving the recorded trail
    ///   (stamped with `time_ms`) when it has more than one point;
    /// - a right press inside the region clears the saved trails and the
    ///   recorded points, restarting the recording at the pressed point when
    ///   one is in progress;
    /// - any other event changes nothing.
    pub fn handle_pointer(&mut self, input: PointerInput<P>, time_ms: u64)
        requires
            old(self).wf(),
        ensures
            final(self).wf(),
            Self::pointer_step(*old(self), input, time_ms, *final(self)),
    {
        match input {
            PointerInput::Moved { position, inside } => {
                if inside {
                    self.record_cursor_position(position);
                    if self.is_recording {
                        self.record_mouse_position(position);
                    }
                }
            },
            PointerInput::Pressed { button: MouseButton::Left, position, inside } => {
                if inside && !self.is_recording {
                    self.is_recording = true;
                    self.recording_positions.clear();
                    self.record_mouse_position(position);
                    assert(self.recorded() =~= seq![position]);
                }
            },
            PointerInput::Released { button: MouseButton::Left } => {
                if self.is_recording {
                    self.is_recording = false;
                    if self.recording_positions.len() > 1 {
                        let mut points = Vec::with_capacity(MOUSE_TRAIL_LENGTH);
                        std::mem::swap(&mut points, &mut self.recording_positions);
                        let ghost before = self.playback_trails@;
                        self.playback_trails.push(PlaybackTrail { points, started_at_ms: time_ms });
                        assert(trails_view(self.playback_trails@) =~= trails_view(before).push(
                            (old(self).recorded(), time_ms),
                        ));
                        assert forall|i: int| 0 <= i < self.saved().len() implies 2
                            <= #[trigger] self.saved()[i].0.len() <= MOUSE_TRAIL_LENGTH by {
                            if i < old(self).saved().len() {
                                assert(self.saved()[i] == old(self).saved()[i]);
                            }
                        }
                    } else {
                        self.recording_positions.clear();
                    }
                }
            },
            PointerInput::Pressed { button: MouseButton::Right, position, inside } => {
                if inside {
                    self.playback_trails.clear();
                    self.recording_positions.clear();
                    assert(self.saved() =~= Seq::<(Seq<P>, u64)>::empty());
                    if self.is_recording {
                        self.record_mouse_position(position);
                        assert(self.recorded() =~= seq![position]);
                    }
                }
            },
            _ => {},
        }
    }
}

/// While recording, a move inside the region always appends its point and then
/// drops only the oldest points: the newest recorded point is the moved-to
/// position, the trail grows by one until it holds `MOUSE_TRAIL_LENGTH` points,
/// and every kept point is one of the newest points before the move, in order.
pub proof fn recording_move_keeps_the_newest_points<P>(
    before: MemoryTrails<P>,
    position: P,
    time_ms: u64,
    after: MemoryTrails<P>,
)
    requires
        before.wf(),
        before.recording(),
        MemoryTrails::pointer_step(before, PointerInput::Moved { position, inside: true }, time_ms, after),
    ensures
        after.recording(),
        after.recorded().len() > 0,
        after.recorded().last() == position,
        after.recorded().len() == if before.recorded().len() < MOUSE_TRAIL_LENGTH {
            before.recorded().len() + 1
        } else {
            MOUSE_TRAIL_LENGTH as nat
        },
        forall|i: int|
            0 <= i < after.recorded().len() - 1 ==> #[trigger] after.recorded()[i]
                == before.recorded()[before.recorded().len() - (after.recorded().len() - 1) + i],
        after.cursor().last() == position,
        after.saved() == before.saved(),
{
    let grown = before.recorded().push(position);
    assert(grown.last() == position);
    assert(before.cursor().push(position).last() == position);
}

} // verus!
