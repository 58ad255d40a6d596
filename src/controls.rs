//! Keyboard decisions: which camera movements one input poll asks for.
use vstd::prelude::*;

verus! {

/// The movement keys held down at one poll.
#[derive(Clone, Copy, Debug, PartialEq, Eq, Structural)]
pub struct KeyState {
    /// Move along the camera's forward axis.
    pub forward: bool,
    /// Move against the camera's forward axis.
    pub backward: bool,
    /// Move against the camera's right axis.
    pub strafe_left: bool,
    /// Move along the camera's right axis.
    pub strafe_right: bool,
    /// Turn by one step about the world's vertical axis.
    pub turn_right: bool,
    /// Turn by one step the other way.
    pub turn_left: bool,
}

/// One fixed-size camera update.
#[derive(Clone, Copy, Debug, PartialEq, Eq, Structural)]
pub enum CameraAction {
    MoveForward,
    MoveBackward,
    StrafeLeft,
    StrafeRight,
    TurnRight,
    TurnLeft,
}

/// `a` alone if `held`, else nothing.
pub open spec fn when_held(held: bool, a: CameraAction) -> Seq<CameraAction> {
    if held {
        seq![a]
    } else {
        seq![]
    }
}

/// The actions of one poll: one per held key, moves before turns, in the order
/// forward, backward, left, right, turn right, turn left.
pub open spec fn actions_for(k: KeyState) -> Seq<CameraAction> {
    when_held(k.forward, CameraAction::MoveForward) + when_held(
        k.backward,
        CameraAction::MoveBackward,
    ) + when_held(k.strafe_left, CameraAction::StrafeLeft) + when_held(
        k.strafe_right,
        CameraAction::StrafeRight,
    ) + when_held(k.turn_right, CameraAction::TurnRight) + when_held(
        k.turn_left,
        CameraAction::TurnLeft,
    )
}

fn push_when_held(out: &mut Vec<CameraAction>, held: bool, a: CameraAction)
    ensures
        final(out)@ == old(out)@ + when_held(held, a),
{
    if held {
        out.push(a);
    }
    proof {
        assert(final(out)@ =~= old(out)@ + when_held(held, a));
    }
}

impl KeyState {
    /// No key held.
    pub fn none() -> (k: KeyState)
        ensures
            !k.forward && !k.backward && !k.strafe_left && !k.strafe_right && !k.turn_right
                && !k.turn_left,
    {
        KeyState {
            forward: false,
            backward: false,
            strafe_left: false,
            strafe_right: false,
            turn_right: false,
            turn_left: false,
        }
    }

    /// The camera updates to apply for this poll, in order.
    pub fn camera_actions(&self) -> (r: Vec<CameraAction>)
        ensures
            r@ == actions_for(*self),
    {
        let mut out: Vec<CameraAction> = Vec::new();
        push_when_held(&mut out, self.forward, CameraAction::MoveForward);
        push_when_held(&mut out, self.backward, CameraAction::MoveBackward);
        push_when_held(&mut out, self.strafe_left, CameraAction::StrafeLeft);
        push_when_held(&mut out, self.strafe_right, CameraAction::StrafeRight);
        push_when_held(&mut out, self.turn_right, CameraAction::TurnRight);
        push_when_held(&mut out, self.turn_left, CameraAction::TurnLeft);
        proof {
            assert(out@ =~= actions_for(*self));
        }
        out
    }
}

} // verus!
