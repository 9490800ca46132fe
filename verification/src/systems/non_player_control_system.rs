//! Turns side-to-side movers around at the edges of the arena.

use vstd::prelude::*;
use crate::components::{EntityData, MovementKind, Velocity};
use crate::geometry::Rect;
use crate::resources::Arena;
use crate::world::{update_keeps_wf, World, WorldView};

verus! {

/// The size of the speed `v`; the one speed whose size cannot be held
/// counts as the largest that can.
pub open spec fn speed_size(v: i32) -> i32 {
    if v == i32::MIN {
        i32::MAX
    } else if v < 0 {
        (-v) as i32
    } else {
        v
    }
}

/// The speed along one axis of a mover whose extent reaches from `near` to
/// `far`, in an arena that reaches from `low` to `high`: away from the low
/// edge once the mover is at or beyond it, else away from the high edge
/// once it is beyond it (or, where `touching` counts, at it), else as it
/// was. The sign is set, not flipped, so a mover that stays beyond an edge
/// for several frames keeps heading back.
pub open spec fn bounced(v: i32, near: int, far: int, low: int, high: int, touching: bool) -> i32 {
    if near <= low {
        speed_size(v)
    } else if far > high || (touching && far == high) {
        (-speed_size(v)) as i32
    } else {
        v
    }
}

/// The velocity of a side-to-side mover at `rect`. At the bottom edge
/// touching is enough to turn, at the right edge it is not.
pub open spec fn turned(rect: Rect, v: Velocity, arena: Rect) -> Velocity {
    Velocity {
        x: bounced(v.x, rect.spec_left(), rect.spec_right(), arena.spec_left(), arena.spec_right(), false),
        y: bounced(v.y, rect.spec_top(), rect.spec_bottom(), arena.spec_top(), arena.spec_bottom(), true),
    }
}

/// What the system makes of one entity: a side-to-side mover that has a
/// position and a velocity is turned around where it must.
pub open spec fn turn_entity(d: EntityData, arena: Arena) -> EntityData {
    match (d.movement_kind, d.position, d.velocity) {
        (Some(MovementKind::SideToSide), Some(p), Some(v)) => EntityData {
            velocity: Some(turned(p.rect, v, arena.0)),
            ..d
        },
        _ => d,
    }
}

/// The store after the system ran.
pub open spec fn turn_all(w: WorldView) -> WorldView {
    WorldView { data: Seq::new(w.data.len(), |i: int| turn_entity(w.data[i], w.arena)), ..w }
}

/// Computes the size of a speed.
pub fn size_of_speed(v: i32) -> (r: i32)
    ensures
        r == speed_size(v),
        0 <= r,
{
    if v == i32::MIN {
        i32::MAX
    } else if v < 0 {
        -v
    } else {
        v
    }
}

/// Turns a side-to-side mover around where it must.
pub fn control_ufo(rect: &Rect, velocity: &mut Velocity, arena: &Arena)
    requires
        rect.wf(),
        arena.0.wf(),
    ensures
        *final(velocity) == turned(*rect, *old(velocity), arena.0),
{
    let arena_rect = arena.0;
    if rect.left() <= arena_rect.left() {
        velocity.x = size_of_speed(velocity.x);
    } else if rect.right() > arena_rect.right() {
        velocity.x = -size_of_speed(velocity.x);
    }
    if rect.top() <= arena_rect.top() {
        velocity.y = size_of_speed(velocity.y);
    } else if rect.bottom() >= arena_rect.bottom() {
        velocity.y = -size_of_speed(velocity.y);
    }
}

/// The system that steers what the player does not.
pub struct NonPlayerControl;

impl NonPlayerControl {
    /// Turns every side-to-side mover around where it must. Nothing else
    /// changes.
    pub fn run(&mut self, world: &mut World)
        requires
            old(world).wf(),
        ensures
            final(world).wf(),
            final(world)@ == turn_all(old(world)@),
    {
        let n = world.len();
        let arena = world.arena;
        let mut i: usize = 0;
        while i < n
            invariant
                world.wf(),
                i <= n,
                n == world@.data.len(),
                n == old(world)@.data.len(),
                arena == old(world)@.arena,
                world@ == (WorldView { data: world@.data, ..old(world)@ }),
                forall|j: int|
                    0 <= j < i ==> #[trigger] world@.data[j] == turn_entity(
                        old(world)@.data[j],
                        arena,
                    ),
                forall|j: int| i <= j < n ==> #[trigger] world@.data[j] == old(world)@.data[j],
            decreases n - i,
        {
            let ghost before = world@;
            assert(before.data[i as int].wf());
            match (world.movement_kind.get(i), world.position.get(i), world.velocity.get(i)) {
                (Some(MovementKind::SideToSide), Some(p), Some(v)) => {
                    let mut vel = v;
                    control_ufo(&p.rect, &mut vel, &arena);
                    world.velocity.insert(i, vel);
                },
                _ => {},
            }
            proof {
                let after = turn_entity(before.data[i as int], arena);
                assert(world@.data =~= before.data.update(i as int, after));
                assert(before.data[i as int] == EntityData::spec_empty() ==> after
                    == EntityData::spec_empty());
                update_keeps_wf(before, i as int, after);
            }
            i += 1;
        }
        proof {
            assert(world@.data =~= turn_all(old(world)@).data);
        }
    }
}

} // verus!
