//! Moves everything that has a velocity.

use vstd::prelude::*;
use crate::components::{EntityData, Position, Velocity};
use crate::geometry::Rect;
use crate::resources::ElapsedSeconds;
use crate::world::{update_keeps_wf, World, WorldView};

verus! {

/// The rectangle after it moved at `velocity`, in pixels per second, for
/// `elapsed` microseconds: each coordinate, in micro-pixels, grows by speed
/// times time, and stops at the coordinate limit.
pub open spec fn moved(rect: Rect, velocity: Velocity, elapsed: ElapsedSeconds) -> Rect {
    Rect::spec_new(
        rect.spec_left() + velocity.x * elapsed.0,
        rect.spec_top() + velocity.y * elapsed.0,
        rect.spec_width(),
        rect.spec_height(),
    )
}

/// What the system makes of one entity: one that has a position and a
/// velocity moves, any other stays.
pub open spec fn move_entity(d: EntityData, elapsed: ElapsedSeconds) -> EntityData {
    match (d.position, d.velocity) {
        (Some(p), Some(v)) => EntityData {
            position: Some(Position { rect: moved(p.rect, v, elapsed) }),
            ..d
        },
        _ => d,
    }
}

/// The store after the system ran.
pub open spec fn move_all(w: WorldView) -> WorldView {
    WorldView { data: Seq::new(w.data.len(), |i: int| move_entity(w.data[i], w.elapsed)), ..w }
}

/// Moves one rectangle.
pub fn move_rect(rect: Rect, velocity: Velocity, elapsed: ElapsedSeconds) -> (r: Rect)
    requires
        rect.wf(),
    ensures
        r.wf(),
        r == moved(rect, velocity, elapsed),
{
    let t: i64 = elapsed.0 as i64;
    assert(-0x8000_0000 * 0xffff_ffff <= velocity.x * t <= 0x8000_0000 * 0xffff_ffff)
        by (nonlinear_arith)
        requires
            -0x8000_0000 <= velocity.x <= 0x7fff_ffff,
            0 <= t <= 0xffff_ffff,
    ;
    assert(-0x8000_0000 * 0xffff_ffff <= velocity.y * t <= 0x8000_0000 * 0xffff_ffff)
        by (nonlinear_arith)
        requires
            -0x8000_0000 <= velocity.y <= 0x7fff_ffff,
            0 <= t <= 0xffff_ffff,
    ;
    let mut r = rect;
    r.move_by((velocity.x as i64) * t, (velocity.y as i64) * t);
    r
}

/// A rectangle that stands still, or for which no time passes, stays
/// where it is.
pub proof fn still_things_stay(rect: Rect, velocity: Velocity, elapsed: ElapsedSeconds)
    requires
        rect.wf(),
        (velocity.x == 0 && velocity.y == 0) || elapsed.0 == 0,
    ensures
        moved(rect, velocity, elapsed) == rect,
{
    assert(velocity.x * elapsed.0 == 0 && velocity.y * elapsed.0 == 0) by (nonlinear_arith)
        requires
            (velocity.x == 0 && velocity.y == 0) || elapsed.0 == 0,
    ;
}

/// The system that moves things.
pub struct UpdatePos;

impl UpdatePos {
    /// Moves every entity that has a position and a velocity by its
    /// velocity times the frame's duration. Nothing else changes.
    pub fn run(&mut self, world: &mut World)
        requires
            old(world).wf(),
        ensures
            final(world).wf(),
            final(world)@ == move_all(old(world)@),
    {
        let n = world.len();
        let elapsed = world.elapsed;
        let mut i: usize = 0;
        while i < n
            invariant
                world.wf(),
                i <= n,
                n == world@.data.len(),
                n == old(world)@.data.len(),
                elapsed == old(world)@.elapsed,
                world@ == (WorldView { data: world@.data, ..old(world)@ }),
                forall|j: int|
                    0 <= j < i ==> #[trigger] world@.data[j] == move_entity(
                        old(world)@.data[j],
                        elapsed,
                    ),
                forall|j: int| i <= j < n ==> #[trigger] world@.data[j] == old(world)@.data[j],
            decreases n - i,
        {
            let ghost before = world@;
            assert(before.data[i as int].wf());
            match (world.position.get(i), world.velocity.get(i)) {
                (Some(p), Some(v)) => {
                    world.position.insert(i, Position { rect: move_rect(p.rect, v, elapsed) });
                },
                _ => {},
            }
            proof {
                let after = move_entity(before.data[i as int], elapsed);
                assert(world@.data =~= before.data.update(i as int, after));
                assert(before.data[i as int] == EntityData::spec_empty() ==> after
                    == EntityData::spec_empty());
                update_keeps_wf(before, i as int, after);
            }
            i += 1;
        }
        proof {
            assert(world@.data =~= move_all(old(world)@).data);
        }
    }
}

} // verus!
