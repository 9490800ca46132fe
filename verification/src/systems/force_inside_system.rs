//! Keeps tagged entities within the arena.

use vstd::prelude::*;
use crate::components::{EntityData, Position};
use crate::geometry::{clamp_coord, Rect};
use crate::resources::Arena;
use crate::world::{update_keeps_wf, World, WorldView};

verus! {

/// Where the near edge of an extent `size` long ends up, given that it was
/// at `near` and must lie between `low` and `high`: pushed up to `low`, then
/// back so that the far edge is at `high`. The last push wins where the
/// extent is longer than the room.
pub open spec fn pushed_inside(near: int, size: int, low: int, high: int) -> int {
    let raised = if near < low {
        low
    } else {
        near
    };
    if raised + size > high {
        clamp_coord(high - size)
    } else {
        raised
    }
}

/// The rectangle `rect` pushed into `arena`, its size kept.
pub open spec fn forced_inside(rect: Rect, arena: Rect) -> Rect {
    Rect::spec_new(
        pushed_inside(rect.spec_left(), rect.spec_width(), arena.spec_left(), arena.spec_right()),
        pushed_inside(rect.spec_top(), rect.spec_height(), arena.spec_top(), arena.spec_bottom()),
        rect.spec_width(),
        rect.spec_height(),
    )
}

/// What the system makes of one entity: a tagged entity with a position is
/// pushed into the arena, any other is left alone.
pub open spec fn force_inside_entity(d: EntityData, arena: Arena) -> EntityData {
    match d.position {
        Some(p) if d.keep_inside is Some => EntityData {
            position: Some(Position { rect: forced_inside(p.rect, arena.0) }),
            ..d
        },
        _ => d,
    }
}

/// The store after the system ran.
pub open spec fn force_inside_all(w: WorldView) -> WorldView {
    WorldView { data: Seq::new(w.data.len(), |i: int| force_inside_entity(w.data[i], w.arena)), ..w }
}

/// Pushes `rect` into `arena`.
pub fn force_inside_rect(rect: Rect, arena: &Rect) -> (r: Rect)
    requires
        rect.wf(),
        arena.wf(),
    ensures
        r.wf(),
        r == forced_inside(rect, *arena),
{
    let mut r = rect;
    if r.left() < arena.left() {
        r.set_left(arena.left());
    }
    if r.top() < arena.top() {
        r.set_top(arena.top());
    }
    if r.right() > arena.right() {
        r.set_right(arena.right());
    }
    if r.bottom() > arena.bottom() {
        r.set_bottom(arena.bottom());
    }
    r
}

/// A rectangle that is no larger than the arena lies wholly within it once
/// it was pushed inside.
pub proof fn forced_inside_is_inside(rect: Rect, arena: Rect)
    requires
        rect.wf(),
        arena.wf(),
        rect.spec_width() <= arena.spec_width(),
        rect.spec_height() <= arena.spec_height(),
    ensures
        forced_inside(rect, arena).wf(),
        forced_inside(rect, arena).size == rect.size,
        forced_inside(rect, arena).spec_inside(&arena),
{
}

/// A rectangle that is within the arena already stays where it is.
pub proof fn forced_inside_keeps_insiders(rect: Rect, arena: Rect)
    requires
        rect.wf(),
        arena.wf(),
        rect.spec_inside(&arena),
    ensures
        forced_inside(rect, arena) == rect,
{
}

/// Once the system ran, no tagged entity is partly outside the arena,
/// unless it is larger than the arena: the entity in slot `i`, tagged and
/// no wider and no higher than the arena, lies wholly within it, its size
/// unchanged.
pub proof fn tagged_entities_end_inside(w: WorldView, i: int)
    requires
        w.wf(),
        0 <= i < w.data.len(),
        w.data[i].keep_inside is Some,
        w.data[i].position is Some,
        w.data[i].position->0.rect.spec_width() <= w.arena.0.spec_width(),
        w.data[i].position->0.rect.spec_height() <= w.arena.0.spec_height(),
    ensures
        force_inside_all(w).data[i].position is Some,
        force_inside_all(w).data[i].position->0.rect.spec_inside(&w.arena.0),
        force_inside_all(w).data[i].position->0.rect.size == w.data[i].position->0.rect.size,
{
    assert(w.data[i].wf());
    forced_inside_is_inside(w.data[i].position->0.rect, w.arena.0);
}

/// The system that keeps tagged entities within the arena.
pub struct ForceInside;

impl ForceInside {
    /// Pushes every entity tagged `KeepInside` that has a position into the
    /// arena. Nothing else changes.
    pub fn run(&mut self, world: &mut World)
        requires
            old(world).wf(),
        ensures
            final(world).wf(),
            final(world)@ == force_inside_all(old(world)@),
    {
        let n = world.len();
        let arena = world.arena;
        let mut i: usize = 0;
        while i < n
            invariant
                world.wf(),
                i <= n,
                n == world@.data.len(),
                n == old(world)@.data.len(),
                arena == old(world)@.arena,
                world@ == (WorldView { data: world@.data, ..old(world)@ }),
                forall|j: int|
                    0 <= j < i ==> #[trigger] world@.data[j] == force_inside_entity(
                        old(world)@.data[j],
                        arena,
                    ),
                forall|j: int| i <= j < n ==> #[trigger] world@.data[j] == old(world)@.data[j],
            decreases n - i,
        {
            let ghost before = world@;
            assert(before.data[i as int].wf());
            if world.keep_inside.contains(i) {
                match world.position.get(i) {
                    Some(p) => {
                        let r = force_inside_rect(p.rect, &arena.0);
                        world.position.insert(i, Position { rect: r });
                    },
                    None => {},
                }
            }
            proof {
                let after = force_inside_entity(before.data[i as int], arena);
                assert(world@.data =~= before.data.update(i as int, after));
                assert(before.data[i as int] == EntityData::spec_empty() ==> after
                    == EntityData::spec_empty());
                update_keeps_wf(before, i as int, after);
            }
            i += 1;
        }
        proof {
            assert(world@.data =~= force_inside_all(old(world)@).data);
        }
    }
}

} // verus!
