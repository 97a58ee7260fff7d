use vstd::prelude::*;

verus! {

/// The movement keys held down during a frame.
#[derive(Clone, Copy, Debug, PartialEq, Eq, Structural)]
pub struct HeldKeys {
    pub forward: bool,
    pub back: bool,
    pub right: bool,
    pub left: bool,
    pub up: bool,
    pub down: bool,
}

/// A direction the camera moves along: its own forward or right vector, or
/// the world's up axis.
#[derive(Clone, Copy, Debug, PartialEq, Eq, Structural)]
pub enum Axis {
    Forward,
    Right,
    WorldUp,
}

/// One fixed-length move along an axis, forwards or backwards.
#[derive(Clone, Copy, Debug, PartialEq, Eq, Structural)]
pub struct Step {
    pub axis: Axis,
    pub positive: bool,
}

/// The one-step sequence `[s]` when `held`, else the empty sequence.
pub open spec fn step_if(held: bool, s: Step) -> Seq<Step> {
    if held {
        seq![s]
    } else {
        Seq::empty()
    }
}

/// The moves of one frame, one per held key, in a fixed key order.
pub open spec fn steps_of(k: HeldKeys) -> Seq<Step> {
    step_if(k.forward, Step { axis: Axis::Forward, positive: true })
        + step_if(k.back, Step { axis: Axis::Forward, positive: false })
        + step_if(k.right, Step { axis: Axis::Right, positive: true })
        + step_if(k.left, Step { axis: Axis::Right, positive: false })
        + step_if(k.up, Step { axis: Axis::WorldUp, positive: true })
        + step_if(k.down, Step { axis: Axis::WorldUp, positive: false })
}

fn push_if(steps: &mut Vec<Step>, held: bool, s: Step)
    ensures
        final(steps)@ == old(steps)@ + step_if(held, s),
{
    if held {
        steps.push(s);
    }
    assert(steps@ =~= old(steps)@ + step_if(held, s));
}

/// The moves that the held keys ask of the camera this frame.
pub fn movement_steps(keys: &HeldKeys) -> (r: Vec<Step>)
    ensures
        r@ == steps_of(*keys),
{
    let mut steps: Vec<Step> = Vec::new();
    push_if(&mut steps, keys.forward, Step { axis: Axis::Forward, positive: true });
    push_if(&mut steps, keys.back, Step { axis: Axis::Forward, positive: false });
    push_if(&mut steps, keys.right, Step { axis: Axis::Right, positive: true });
    push_if(&mut steps, keys.left, Step { axis: Axis::Right, positive: false });
    push_if(&mut steps, keys.up, Step { axis: Axis::WorldUp, positive: true });
    push_if(&mut steps, keys.down, Step { axis: Axis::WorldUp, positive: false });
    assert(steps@ =~= steps_of(*keys));
    steps
}

/// With no movement key held the camera does not move.
pub proof fn lemma_no_keys_no_steps(k: HeldKeys)
    requires
        !k.forward && !k.back && !k.right && !k.left && !k.up && !k.down,
    ensures
        steps_of(k).len() == 0,
{
}

} // verus!
