//! The swipe session: accumulates the motion of one gesture between its begin and
//! its end, and yields the finished swipe.
use crate::direction::{classify, direction_of, SwipeDir};
use vstd::prelude::*;

verus! {

/// `v` clamped into the range of `i32`.
pub open spec fn saturate(v: int) -> int {
    if v < i32::MIN {
        i32::MIN as int
    } else if v > i32::MAX {
        i32::MAX as int
    } else {
        v
    }
}

/// Net motion of a gesture, summed over its updates. Each sum saturates at the
/// bounds of `i32`.
#[derive(Clone, Copy, Debug, PartialEq, Eq, Structural)]
pub struct SwipeVector {
    pub dx: i32,
    pub dy: i32,
}

impl SwipeVector {
    pub fn new() -> (r: SwipeVector)
        ensures
            r.dx == 0,
            r.dy == 0,
    {
        SwipeVector { dx: 0, dy: 0 }
    }

    /// Adds the motion of one update.
    pub fn add_update(&mut self, dx: i32, dy: i32)
        ensures
            final(self).dx == saturate(old(self).dx + dx),
            final(self).dy == saturate(old(self).dy + dy),
    {
        self.dx = saturating_sum(self.dx, dx);
        self.dy = saturating_sum(self.dy, dy);
    }

    /// The compass direction of the net motion.
    pub fn calculate_direction(&self) -> (r: SwipeDir)
        ensures
            r == direction_of(self.dx as int, self.dy as int),
    {
        classify(self.dx, self.dy)
    }
}

fn saturating_sum(a: i32, b: i32) -> (r: i32)
    ensures
        r == saturate(a + b),
{
    let s = a as i64 + b as i64;
    if s < i32::MIN as i64 {
        i32::MIN
    } else if s > i32::MAX as i64 {
        i32::MAX
    } else {
        s as i32
    }
}

/// A finished swipe: where it went, and with how many fingers.
#[derive(Clone, Copy, Debug, PartialEq, Eq, Structural)]
pub struct Swipe {
    pub dir: SwipeDir,
    pub finger_count: i32,
}

/// One phase of a swipe gesture, as the input device reports it.
#[derive(Clone, Copy, Debug, PartialEq, Eq, Structural)]
pub enum SwipeEvent {
    Begin { finger_count: i32 },
    Update { dx: i32, dy: i32 },
    End,
    /// The gesture ended without completing (a cancelled end, or any other
    /// abnormal termination).
    Cancel,
}

/// A gesture event of any kind; only swipes are acted upon.
#[derive(Clone, Copy, Debug, PartialEq, Eq, Structural)]
pub enum GestureEvent {
    Swipe(SwipeEvent),
    Pinch,
    Hold,
    Other,
}

/// The one gesture session. While `tracking` is false the machine is idle, and then
/// it holds no finger count and no motion.
#[derive(Clone, Copy, Debug, PartialEq, Eq, Structural)]
pub struct SwipeStateMachine {
    pub finger_count: i32,
    pub accumulated_swipe: SwipeVector,
    pub tracking: bool,
}

/// The idle machine.
pub open spec fn idle_machine() -> SwipeStateMachine {
    SwipeStateMachine {
        finger_count: 0,
        accumulated_swipe: SwipeVector { dx: 0, dy: 0 },
        tracking: false,
    }
}

/// What one swipe event does: the next state of the machine, and the swipe that it
/// finishes, if any. An update or an end while idle changes nothing.
pub open spec fn swipe_step(m: SwipeStateMachine, e: SwipeEvent) -> (
    SwipeStateMachine,
    Option<Swipe>,
) {
    match e {
        SwipeEvent::Begin { finger_count } => (
            SwipeStateMachine {
                finger_count,
                accumulated_swipe: SwipeVector { dx: 0, dy: 0 },
                tracking: true,
            },
            None,
        ),
        SwipeEvent::Update { dx, dy } => if m.tracking {
            (
                SwipeStateMachine {
                    accumulated_swipe: SwipeVector {
                        dx: saturate(m.accumulated_swipe.dx + dx) as i32,
                        dy: saturate(m.accumulated_swipe.dy + dy) as i32,
                    },
                    ..m
                },
                None,
            )
        } else {
            (m, None)
        },
        SwipeEvent::End => if m.tracking {
            (
                idle_machine(),
                Some(
                    Swipe {
                        dir: direction_of(
                            m.accumulated_swipe.dx as int,
                            m.accumulated_swipe.dy as int,
                        ),
                        finger_count: m.finger_count,
                    },
                ),
            )
        } else {
            (m, None)
        },
        SwipeEvent::Cancel => (idle_machine(), None),
    }
}

/// What one gesture event of any kind does: swipes step the machine, the rest
/// leave it as it is.
pub open spec fn gesture_step(m: SwipeStateMachine, e: GestureEvent) -> (
    SwipeStateMachine,
    Option<Swipe>,
) {
    match e {
        GestureEvent::Swipe(s) => swipe_step(m, s),
        _ => (m, None),
    }
}

impl SwipeStateMachine {
    pub fn new() -> (r: SwipeStateMachine)
        ensures
            r == idle_machine(),
    {
        SwipeStateMachine { finger_count: 0, accumulated_swipe: SwipeVector::new(), tracking: false }
    }

    /// Starts a session with `finger_count` fingers; a session already in progress
    /// is discarded.
    pub fn begin(&mut self, finger_count: i32)
        ensures
            *final(self) == swipe_step(*old(self), SwipeEvent::Begin { finger_count }).0,
    {
        self.finger_count = finger_count;
        self.accumulated_swipe = SwipeVector::new();
        self.tracking = true;
    }

    /// Adds motion to the session in progress; while idle it is ignored.
    pub fn update(&mut self, dx: i32, dy: i32)
        ensures
            *final(self) == swipe_step(*old(self), SwipeEvent::Update { dx, dy }).0,
    {
        if self.tracking {
            self.accumulated_swipe.add_update(dx, dy);
        }
    }

    /// Finishes the session in progress and yields its swipe; while idle it yields
    /// nothing.
    pub fn end(&mut self) -> (r: Option<Swipe>)
        ensures
            (*final(self), r) == swipe_step(*old(self), SwipeEvent::End),
    {
        if !self.tracking {
            return None;
        }
        let dir = self.accumulated_swipe.calculate_direction();
        let finger_count = self.finger_count;
        *self = SwipeStateMachine::new();
        Some(Swipe { dir, finger_count })
    }

    /// Discards the session in progress, if any.
    pub fn cancel(&mut self)
        ensures
            *final(self) == swipe_step(*old(self), SwipeEvent::Cancel).0,
    {
        *self = SwipeStateMachine::new();
    }
}

/// Feeds one swipe event to the machine.
pub fn handle_swipe_gesture(gesture: SwipeEvent, state_machine: &mut SwipeStateMachine) -> (r:
    Option<Swipe>)
    ensures
        (*final(state_machine), r) == swipe_step(*old(state_machine), gesture),
{
    match gesture {
        SwipeEvent::Begin { finger_count } => {
            state_machine.begin(finger_count);
            None
        },
        SwipeEvent::Update { dx, dy } => {
            state_machine.update(dx, dy);
            None
        },
        SwipeEvent::End => state_machine.end(),
        SwipeEvent::Cancel => {
            state_machine.cancel();
            None
        },
    }
}

/// Feeds one gesture event to the machine; only swipes have an effect.
pub fn handle_gesture(gesture: GestureEvent, state_machine: &mut SwipeStateMachine) -> (r:
    Option<Swipe>)
    ensures
        (*final(state_machine), r) == gesture_step(*old(state_machine), gesture),
{
    match gesture {
        GestureEvent::Swipe(swipe) => handle_swipe_gesture(swipe, state_machine),
        _ => None,
    }
}

} // verus!
