//! Steers the player by what the input says.

use vstd::prelude::*;
use crate::components::{EntityData, Velocity};
use crate::resources::ControlState;
use crate::world::{update_keeps_wf, World, WorldView};

verus! {

/// The speed of the player along each axis, in pixels per second.
pub const PLAYER_SPEED: i32 = 400;

/// The speed along one axis: full speed towards whichever side is held,
/// the forward side where both are, none where neither is.
pub open spec fn axis_speed(backward: bool, forward: bool) -> i32 {
    if forward {
        PLAYER_SPEED
    } else if backward {
        (-PLAYER_SPEED) as i32
    } else {
        0
    }
}

/// The velocity that the input asks for. Right and down are forward.
pub open spec fn steered(control: ControlState) -> Velocity {
    Velocity { x: axis_speed(control.left, control.right), y: axis_speed(control.up, control.down) }
}

/// What the system makes of one entity: a player that has a velocity gets
/// the velocity that the input asks for.
pub open spec fn steer_entity(d: EntityData, control: ControlState) -> EntityData {
    if d.is_player is Some && d.velocity is Some {
        EntityData { velocity: Some(steered(control)), ..d }
    } else {
        d
    }
}

/// The store after the system ran.
pub open spec fn steer_all(w: WorldView) -> WorldView {
    WorldView { data: Seq::new(w.data.len(), |i: int| steer_entity(w.data[i], w.control_state)), ..w }
}

/// Computes the velocity that the input asks for.
pub fn steer(control: &ControlState, current: Velocity) -> (v: Velocity)
    ensures
        v == steered(*control),
{
    let mut vel = current;
    if control.left {
        vel.x = -PLAYER_SPEED;
    }
    if control.right {
        vel.x = PLAYER_SPEED;
    }
    if !control.left && !control.right {
        vel.x = 0;
    }
    if control.up {
        vel.y = -PLAYER_SPEED;
    }
    if control.down {
        vel.y = PLAYER_SPEED;
    }
    if !control.up && !control.down {
        vel.y = 0;
    }
    vel
}

/// The system that steers the player.
pub struct PlayerControl;

impl PlayerControl {
    /// Gives every player the velocity that the input asks for. Nothing
    /// else changes.
    pub fn run(&mut self, world: &mut World)
        requires
            old(world).wf(),
        ensures
            final(world).wf(),
            final(world)@ == steer_all(old(world)@),
    {
        let n = world.len();
        let control = world.control_state;
        let mut i: usize = 0;
        while i < n
            invariant
                world.wf(),
                i <= n,
                n == world@.data.len(),
                n == old(world)@.data.len(),
                control == old(world)@.control_state,
                world@ == (WorldView { data: world@.data, ..old(world)@ }),
                forall|j: int|
                    0 <= j < i ==> #[trigger] world@.data[j] == steer_entity(
                        old(world)@.data[j],
                        control,
                    ),
                forall|j: int| i <= j < n ==> #[trigger] world@.data[j] == old(world)@.data[j],
            decreases n - i,
        {
            let ghost before = world@;
            assert(before.data[i as int].wf());
            if world.is_player.contains(i) {
                match world.velocity.get(i) {
                    Some(v) => {
                        world.velocity.insert(i, steer(&control, v));
                    },
                    None => {},
                }
            }
            proof {
                let after = steer_entity(before.data[i as int], control);
                assert(world@.data =~= before.data.update(i as int, after));
                assert(before.data[i as int] == EntityData::spec_empty() ==> after
                    == EntityData::spec_empty());
                update_keeps_wf(before, i as int, after);
            }
            i += 1;
        }
        proof {
            assert(world@.data =~= steer_all(old(world)@).data);
        }
    }
}

} // verus!
