//! Lets the player shoot, once for each press of the fire key.

use vstd::prelude::*;
use crate::components::{EntityData, HarmsAliens, Position, ReapWhenOutside, Sprite, Velocity};
use crate::geometry::{Rect, RectSize};
use crate::queries::{first_player_rect, first_player_rect_is_wf};
use crate::world::{queue_nothing, Command, World, WorldView};

verus! {

/// The speed of the player's shot, in pixels per second.
pub const PLAYER_SHOT_SPEED: i32 = 1500;

/// The shot of a player at `player`: it starts at the middle of the
/// player's right edge and flies to the right. `shot_size` is the size of
/// its picture in whole pixels.
pub open spec fn player_shot(player: Rect, shot_size: (u32, u32)) -> EntityData {
    let from = player.spec_midright();
    let size = RectSize::spec_from_pixels(shot_size);
    EntityData {
        position: Some(
            Position {
                rect: Rect::spec_new(from.0 as int, from.1 as int, size.0 as int, size.1 as int),
            },
        ),
        velocity: Some(Velocity { x: PLAYER_SHOT_SPEED, y: 0 }),
        sprite: Some(Sprite::BasicShot),
        reap_when_outside: Some(ReapWhenOutside),
        harms_aliens: Some(HarmsAliens),
        ..EntityData::spec_empty()
    }
}

/// What the player fires in this frame, where `has_shot` tells whether fire
/// was held in the frame before: one shot where there is a player, fire is
/// held and was not held in the frame before; else nothing.
pub open spec fn player_shots(w: WorldView, has_shot: bool, shot_size: (u32, u32)) -> Seq<Command> {
    match first_player_rect(w.data, 0) {
        Some(player) if w.control_state.fire && !has_shot => seq![
            Command::Create(player_shot(player, shot_size)),
        ],
        _ => Seq::empty(),
    }
}

/// The system that lets the player shoot. It knows the size of the
/// shot's picture in whole pixels, and whether fire was held in the frame
/// before.
pub struct PlayerShooting {
    pub shot_size: (u32, u32),
    pub has_shot: bool,
}

impl PlayerShooting {
    pub fn new(shot_size: (u32, u32)) -> (s: PlayerShooting)
        ensures
            s.shot_size == shot_size,
            !s.has_shot,
    {
        PlayerShooting { shot_size, has_shot: false }
    }

    /// Builds the shot of a player.
    pub fn make_shot(&self, player: Rect) -> (d: EntityData)
        requires
            player.wf(),
        ensures
            d == player_shot(player, self.shot_size),
            d.wf(),
    {
        let mut d = EntityData::empty();
        d.position = Some(
            Position { rect: Rect::new(player.midright(), RectSize::from_pixels(self.shot_size)) },
        );
        d.velocity = Some(Velocity { x: PLAYER_SHOT_SPEED, y: 0 });
        d.sprite = Some(Sprite::BasicShot);
        d.reap_when_outside = Some(ReapWhenOutside);
        d.harms_aliens = Some(HarmsAliens);
        d
    }

    /// Queues one shot when fire goes from released to held while there is
    /// a player, and remembers whether fire is held, with or without a
    /// player. The store itself stays as it is.
    pub fn run(&mut self, world: &mut World)
        requires
            old(world).wf(),
        ensures
            final(world).wf(),
            final(self).shot_size == old(self).shot_size,
            final(self).has_shot == old(world)@.control_state.fire,
            final(world)@ == old(world)@.queue_all(
                player_shots(old(world)@, old(self).has_shot, old(self).shot_size),
            ),
    {
        let fire = world.control_state.fire;
        proof {
            queue_nothing(old(world)@);
            first_player_rect_is_wf(old(world)@, 0);
        }
        if !self.has_shot && fire {
            match world.find_player_rect() {
                Some(player) => {
                    let shot = self.make_shot(player);
                    world.queue(Command::Create(shot));
                    proof {
                        assert(old(world)@.pending.push(Command::Create(shot)) =~= old(world)@.pending
                            + seq![Command::Create(shot)]);
                    }
                },
                None => {},
            }
        }
        self.has_shot = fire;
    }
}

/// Whether fire was held in the frame before frame `k` of `frames`, for a
/// system that starts with `has_shot`.
pub open spec fn held_before(frames: Seq<WorldView>, has_shot: bool, k: int) -> bool {
    if k <= 0 {
        has_shot
    } else {
        frames[k - 1].control_state.fire
    }
}

/// The number of shots that the first `n` of `frames` bring.
pub open spec fn shots_in_frames(
    frames: Seq<WorldView>,
    has_shot: bool,
    shot_size: (u32, u32),
    n: nat,
) -> nat
    decreases n,
{
    if n == 0 {
        0
    } else {
        shots_in_frames(frames, has_shot, shot_size, (n - 1) as nat) + player_shots(
            frames[n - 1],
            held_before(frames, has_shot, n - 1),
            shot_size,
        ).len()
    }
}

/// Holding fire brings one shot, however long it is held: over any number
/// of frames, at least one, in each of which fire is held and in the first
/// of which there is a player, a system that starts with fire released
/// queues exactly one shot.
pub proof fn holding_fire_shoots_once(frames: Seq<WorldView>, shot_size: (u32, u32), n: nat)
    requires
        1 <= n <= frames.len(),
        forall|k: int| 0 <= k < n ==> (#[trigger] frames[k]).control_state.fire,
        first_player_rect(frames[0].data, 0) is Some,
    ensures
        shots_in_frames(frames, false, shot_size, n) == 1,
    decreases n,
{
    assert(frames[n - 1].control_state.fire);
    if n > 1 {
        holding_fire_shoots_once(frames, shot_size, (n - 1) as nat);
        assert(frames[n - 2].control_state.fire);
    } else {
        assert(shots_in_frames(frames, false, shot_size, 0) == 0);
    }
}

/// Only a press shoots: a frame in which fire is held brings a shot exactly
/// when there is a player and fire was released in the frame before,
/// whatever happened earlier, and whether or not there was a player then.
pub proof fn a_press_shoots(frames: Seq<WorldView>, has_shot: bool, shot_size: (u32, u32), k: int)
    requires
        1 <= k < frames.len(),
    ensures
        player_shots(frames[k], held_before(frames, has_shot, k), shot_size).len() == (if frames[k]
            .control_state.fire && !frames[k - 1].control_state.fire && first_player_rect(
            frames[k].data,
            0,
        ) is Some {
            1nat
        } else {
            0nat
        }),
{
}

} // verus!
