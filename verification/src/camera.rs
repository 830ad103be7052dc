//! The free camera of god mode: which way the arrow keys move it.

use vstd::prelude::*;

verus! {

/// An axis of the world.
#[derive(Debug, Clone, Copy, PartialEq, Eq, Structural)]
pub enum Axis {
    /// Left to right.
    X,
    /// Bottom to top.
    Y,
}

/// One step of the camera along an axis, of the distance the camera covers
/// in one frame.
#[derive(Debug, Clone, Copy, PartialEq, Eq, Structural)]
pub struct CameraStep {
    /// The axis the camera moves along.
    pub axis: Axis,
    /// Whether the coordinate grows (to the right, or upwards).
    pub forward: bool,
}

/// The step along `axis` that a key stands for, taken only while the key is
/// held down.
pub open spec fn step_if(held: bool, axis: Axis, forward: bool) -> Seq<CameraStep> {
    if held {
        seq![CameraStep { axis, forward }]
    } else {
        Seq::empty()
    }
}

/// The steps the camera takes in a frame in which the given arrow keys are
/// held down: up, down, left and right, in this order, one step for each
/// key that is held. Opposite keys do not cancel; both steps are taken.
pub open spec fn movement_steps(up: bool, down: bool, left: bool, right: bool) -> Seq<CameraStep> {
    step_if(up, Axis::Y, true) + step_if(down, Axis::Y, false) + step_if(left, Axis::X, false)
        + step_if(right, Axis::X, true)
}

/// Turns the arrow keys that are held down into the steps the free camera
/// takes this frame, in the order in which they are to be applied.
pub fn god_mode_movement(up: bool, down: bool, left: bool, right: bool) -> (steps: Vec<CameraStep>)
    ensures
        steps@ == movement_steps(up, down, left, right),
{
    let mut steps: Vec<CameraStep> = Vec::new();
    if up {
        steps.push(CameraStep { axis: Axis::Y, forward: true });
    }
    if down {
        steps.push(CameraStep { axis: Axis::Y, forward: false });
    }
    if left {
        steps.push(CameraStep { axis: Axis::X, forward: false });
    }
    if right {
        steps.push(CameraStep { axis: Axis::X, forward: true });
    }
    assert(steps@ =~= movement_steps(up, down, left, right));
    steps
}

} // verus!
