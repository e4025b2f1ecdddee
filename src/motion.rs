//! Motion: the state that the motion watch publishes, and how it drives the
//! permit that pauses a stream.
use vstd::prelude::*;

verus! {

/// The pause before the motion listener restarts after a failure.
pub const MD_RESTART_MS: u64 = 1000;

/// A motion event from the camera, with its time in milliseconds.
#[derive(Clone, Copy, Debug, PartialEq, Eq, Structural)]
pub enum MotionStatus {
    Start(u64),
    Stop(u64),
    NoChange(u64),
}

/// What the motion watch holds.
#[derive(Clone, Copy, Debug, PartialEq, Eq, Structural)]
pub enum MdState {
    Start(u64),
    Stop(u64),
    Unknown,
}

/// The watch after an event: a start or a stop replaces it, no change keeps it.
pub fn next_md_state(current: MdState, event: MotionStatus) -> (r: MdState)
    ensures
        r == match event {
            MotionStatus::Start(t) => MdState::Start(t),
            MotionStatus::Stop(t) => MdState::Stop(t),
            MotionStatus::NoChange(_) => current,
        },
{
    match event {
        MotionStatus::Start(t) => MdState::Start(t),
        MotionStatus::Stop(t) => MdState::Stop(t),
        MotionStatus::NoChange(_) => current,
    }
}

/// What a motion state does to the stream's motion permit: motion activates
/// it, its end deactivates it, an unknown state leaves it.
pub fn motion_permit_change(md: MdState) -> (r: Option<bool>)
    ensures
        r == match md {
            MdState::Start(_) => Some(true),
            MdState::Stop(_) => Some(false),
            MdState::Unknown => None::<bool>,
        },
{
    match md {
        MdState::Start(_) => Some(true),
        MdState::Stop(_) => Some(false),
        MdState::Unknown => None,
    }
}

/// Whether a stream paused on motion starts with its motion permit active.
pub fn starts_with_motion(md: MdState) -> (r: bool)
    ensures
        r == md is Start,
{
    matches!(md, MdState::Start(_))
}

} // verus!
