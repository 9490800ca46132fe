//! What the store tells the outer driver and the drawing side.

use vstd::prelude::*;
use crate::components::{Draw, EntityData, Position, Sprite};
use crate::geometry::Rect;
use crate::resources::PlayingGameState;
use crate::world::{World, WorldView};

verus! {

/// The rectangle of the first player at or after slot `from` that has a
/// position, if there is one.
pub open spec fn first_player_rect(data: Seq<EntityData>, from: int) -> Option<Rect>
    decreases data.len() - from,
{
    if from < 0 || from >= data.len() {
        None
    } else {
        match data[from].position {
            Some(p) if data[from].is_player is Some => Some(p.rect),
            _ => first_player_rect(data, from + 1),
        }
    }
}

/// The rectangle of the first player is well formed in a well-formed store.
pub proof fn first_player_rect_is_wf(w: WorldView, from: int)
    requires
        w.wf(),
        0 <= from,
    ensures
        first_player_rect(w.data, from) matches Some(r) ==> r.wf(),
    decreases w.data.len() - from,
{
    if from < w.data.len() {
        assert(w.data[from].wf());
        first_player_rect_is_wf(w, from + 1);
    }
}

/// The positions and pictures of the first `n` slots that have both, in
/// slot order.
pub open spec fn sprites_of(data: Seq<EntityData>, n: nat) -> Seq<(Position, Sprite)>
    decreases n,
{
    if n == 0 {
        Seq::empty()
    } else {
        let rest = sprites_of(data, (n - 1) as nat);
        match (data[n - 1].position, data[n - 1].sprite) {
            (Some(p), Some(s)) => rest.push((p, s)),
            _ => rest,
        }
    }
}

/// The positions and shapes of the first `n` slots that have both, in slot
/// order.
pub open spec fn shapes_of(data: Seq<EntityData>, n: nat) -> Seq<(Position, Draw)>
    decreases n,
{
    if n == 0 {
        Seq::empty()
    } else {
        let rest = shapes_of(data, (n - 1) as nat);
        match (data[n - 1].position, data[n - 1].draw) {
            (Some(p), Some(d)) => rest.push((p, d)),
            _ => rest,
        }
    }
}

/// The score and lives that the store holds.
pub fn get_playing_state(world: &World) -> (s: PlayingGameState)
    ensures
        s == world@.playing_state,
{
    world.playing_state
}

/// Whether no entity is a player.
pub fn is_player_dead(world: &World) -> (r: bool)
    requires
        world.wf(),
    ensures
        r == world@.player_dead(),
{
    let r = world.is_player.is_empty();
    proof {
        if r {
            assert forall|i: int| 0 <= i < world@.data.len() implies (#[trigger] world@.data[i]).is_player is None by {
                assert(world.is_player@[i] is None);
            }
        } else {
            let i = choose|i: int| 0 <= i < world.is_player@.len() && !(world.is_player@[i] is None);
            assert(world@.data[i].is_player is Some);
        }
    }
    r
}

/// Whether no entity belongs to an explosion.
pub fn all_explosions_gone(world: &World) -> (r: bool)
    requires
        world.wf(),
    ensures
        r == world@.explosions_gone(),
{
    let r = world.is_explosion.is_empty();
    proof {
        if r {
            assert forall|i: int| 0 <= i < world@.data.len() implies (#[trigger] world@.data[i]).is_explosion is None by {
                assert(world.is_explosion@[i] is None);
            }
        } else {
            let i = choose|i: int|
                0 <= i < world.is_explosion@.len() && !(world.is_explosion@[i] is None);
            assert(world@.data[i].is_explosion is Some);
        }
    }
    r
}

impl World {
    /// The rectangle of the first player that has a position.
    pub fn find_player_rect(&self) -> (r: Option<Rect>)
        requires
            self.wf(),
        ensures
            r == first_player_rect(self@.data, 0),
    {
        let n = self.len();
        let mut i: usize = 0;
        while i < n
            invariant
                self.wf(),
                n == self@.data.len(),
                i <= n,
                first_player_rect(self@.data, 0) == first_player_rect(self@.data, i as int),
            decreases n - i,
        {
            if self.is_player.contains(i) {
                match self.position.get(i) {
                    Some(p) => {
                        return Some(p.rect);
                    },
                    None => {},
                }
            }
            i += 1;
        }
        None
    }

    /// Every entity that has a position and a picture, for drawing.
    pub fn sprites(&self) -> (v: Vec<(Position, Sprite)>)
        requires
            self.wf(),
        ensures
            v@ == sprites_of(self@.data, self@.data.len()),
    {
        let n = self.len();
        let mut v: Vec<(Position, Sprite)> = Vec::new();
        let mut i: usize = 0;
        while i < n
            invariant
                self.wf(),
                n == self@.data.len(),
                i <= n,
                v@ == sprites_of(self@.data, i as nat),
            decreases n - i,
        {
            match (self.position.get(i), self.sprite.get(i)) {
                (Some(p), Some(s)) => {
                    v.push((p, s));
                },
                _ => {},
            }
            i += 1;
        }
        v
    }

    /// Every entity that has a position and a shape, for drawing.
    pub fn shapes(&self) -> (v: Vec<(Position, Draw)>)
        requires
            self.wf(),
        ensures
            v@ == shapes_of(self@.data, self@.data.len()),
    {
        let n = self.len();
        let mut v: Vec<(Position, Draw)> = Vec::new();
        let mut i: usize = 0;
        while i < n
            invariant
                self.wf(),
                n == self@.data.len(),
                i <= n,
                v@ == shapes_of(self@.data, i as nat),
            decreases n - i,
        {
            match (self.position.get(i), self.draw.get(i)) {
                (Some(p), Some(d)) => {
                    v.push((p, d));
                },
                _ => {},
            }
            i += 1;
        }
        v
    }
}

} // verus!
