//! Starting a game: the store is emptied, the sky is filled with stars and
//! a player is put in.

use vstd::prelude::*;
use crate::components::{Draw, EntityData};
use crate::geometry::RectSize;
use crate::entity::{first_free_is_least, handle_is_stale, Entity};
use crate::game_state::{idle, idled, make_player, new_player, GameState};
use crate::random::RandomSource;
use crate::resources::{
    Arena, ControlState, ElapsedSeconds, PlayingGameState, STARTING_LIVES,
};
use crate::systems::star_spawner_system::{star, stars, StarRoll, StarSpawner, STAR_ABOVE};
use crate::systems::update_pos_system::{move_all, move_entity, UpdatePos};
use crate::world::{at_most_one_player, none_makes_a_player, Command, World, WorldView};

verus! {

/// The number of frames that are played in advance to fill the sky.
pub const BACKDROP_FRAMES: u32 = 3000;

/// The duration of each of those frames, in microseconds: about what a
/// frame takes when the game runs.
pub const BACKDROP_FRAME_MICROS: u32 = 16_000;

/// Whether the entity is mere decoration: no player, no alien, no shot, no
/// explosion, nothing that is steered, drawn from a picture or counted
/// down.
pub open spec fn is_backdrop(d: EntityData) -> bool {
    &&& d.is_player is None
    &&& d.is_alien is None
    &&& d.is_explosion is None
    &&& d.harms_player is None
    &&& d.harms_aliens is None
    &&& d.keep_inside is None
    &&& d.invincibility is None
    &&& d.lifetime is None
    &&& d.spawner_kind is None
    &&& d.movement_kind is None
    &&& d.sprite is None
}

/// Whether the entity is a star as the star spawner makes them: a point
/// that drifts to the left at 15 to 49 pixels per second, drawn as a star
/// of radius 1 to 4, reaped once it has left the arena, and nothing more.
pub open spec fn is_star(d: EntityData) -> bool {
    &&& d.position matches Some(p) && p.rect.size == RectSize(0, 0)
    &&& d.velocity matches Some(v) && -50 < v.x <= -15 && v.y == 0
    &&& d.draw matches Some(Draw::Star(radius)) && 1 <= radius < 5
    &&& d.reap_when_outside is Some
    &&& is_backdrop(d)
}

/// Whether slot `i` of the store holds a star, or nothing.
pub open spec fn star_or_nothing(w: WorldView, i: int) -> bool {
    if w.alive[i] {
        is_star(w.data[i])
    } else {
        w.data[i] == EntityData::spec_empty()
    }
}

/// Whether every live entity of the store is a star.
pub open spec fn stars_only(w: WorldView) -> bool {
    forall|i: int| 0 <= i < w.data.len() ==> #[trigger] star_or_nothing(w, i)
}

/// Whether every handle that named a live entity of `before` is stale in
/// `after`: its slot has moved on to a later generation, so the handle
/// names nothing now and never will again.
pub open spec fn all_gone(before: WorldView, after: WorldView) -> bool {
    forall|e: Entity| #[trigger] before.is_alive(e) ==> handle_is_stale(after.generations, e)
}

/// The store after one frame of filling the sky: a star may have appeared,
/// and every star has drifted on.
pub open spec fn sky_frame(w: WorldView, roll: StarRoll) -> WorldView {
    move_all(w.queue_all(stars(w, roll))).maintained()
}

/// The store after the first `n` of the frames that `rolls` tell of.
pub open spec fn sky_frames(w: WorldView, rolls: Seq<StarRoll>, n: nat) -> WorldView
    decreases n,
{
    if n == 0 {
        w
    } else {
        sky_frame(sky_frames(w, rolls, (n - 1) as nat), rolls[n - 1])
    }
}

/// Whether `rolls` holds, for each of `n` frames, a roll that chance can
/// have given for the arena.
pub open spec fn are_star_rolls(rolls: Seq<StarRoll>, arena: Arena, n: nat) -> bool {
    &&& rolls.len() == n
    &&& forall|k: int| 0 <= k < n ==> (#[trigger] rolls[k]).fits(arena)
}

/// The store from which the sky is filled: that of `w` with everything
/// deleted, the duration of a frame set and the score fresh.
pub open spec fn start_of_sky(w: WorldView) -> WorldView {
    WorldView {
        elapsed: ElapsedSeconds(BACKDROP_FRAME_MICROS),
        playing_state: PlayingGameState { score: 0, lives_left: STARTING_LIVES },
        ..w.cleared()
    }
}

/// The first frames do not depend on the rolls of later ones.
pub proof fn sky_frames_are_settled(w: WorldView, rolls: Seq<StarRoll>, more: StarRoll, n: nat)
    requires
        n <= rolls.len(),
    ensures
        sky_frames(w, rolls.push(more), n) == sky_frames(w, rolls, n),
    decreases n,
{
    if n > 0 {
        sky_frames_are_settled(w, rolls, more, (n - 1) as nat);
        assert(rolls.push(more)[n - 1] == rolls[n - 1]);
    }
}

/// A frame of filling the sky leaves a sky of stars: every live entity is
/// a star afterwards where it was before, no slot's generation changes,
/// and nothing is left queued.
pub proof fn sky_frame_keeps_stars(w: WorldView, roll: StarRoll)
    requires
        w.wf(),
        w.pending.len() == 0,
        stars_only(w),
        roll.fits(w.arena),
    ensures
        stars_only(sky_frame(w, roll)),
        sky_frame(w, roll).pending.len() == 0,
        sky_frame(w, roll).arena == w.arena,
        sky_frame(w, roll).control_state == w.control_state,
        sky_frame(w, roll).playing_state == w.playing_state,
        sky_frame(w, roll).elapsed == w.elapsed,
        sky_frame(w, roll).generations.len() >= w.generations.len(),
        forall|i: int|
            0 <= i < w.generations.len() ==> #[trigger] sky_frame(w, roll).generations[i]
                == w.generations[i],
{
    let queued = w.queue_all(stars(w, roll));
    let moved = move_all(queued);
    let base = WorldView { pending: Seq::empty(), ..moved };
    assert forall|i: int| 0 <= i < moved.data.len() implies #[trigger] star_or_nothing(moved, i) by {
        assert(star_or_nothing(w, i));
        assert(moved.data[i] == move_entity(w.data[i], w.elapsed));
    }
    assert(moved.pending =~= stars(w, roll));
    reveal_with_fuel(WorldView::apply_first, 2);
    if roll.roll > STAR_ABOVE {
        let new_star = star(w.arena, roll);
        assert(moved.pending[0] == Command::Create(new_star));
        assert(sky_frame(w, roll) == base.create(new_star));
        first_free_is_least(base.alive, base.generations, 0);
        assert(is_star(new_star));
        let after = base.create(new_star);
        assert forall|i: int| 0 <= i < after.data.len() implies #[trigger] star_or_nothing(
            after,
            i,
        ) by {
            if i < moved.data.len() && i != base.next_index() {
                assert(after.data[i] == moved.data[i]);
                assert(star_or_nothing(moved, i));
            }
        }
    } else {
        assert(sky_frame(w, roll) == base);
        assert forall|i: int| 0 <= i < base.data.len() implies #[trigger] star_or_nothing(
            base,
            i,
        ) by {
            assert(star_or_nothing(moved, i));
        }
    }
}

/// Deletes everything and fills the sky with stars, as if the game had run
/// for a while with nothing but stars in it: from the emptied store, with
/// a fresh score, it plays 3000 frames of 16 milliseconds in each of which
/// a star may appear and every star drifts on. Every entity is a star
/// afterwards, and every handle from before is stale.
pub fn initialize_world(world: &mut World, rng: &mut RandomSource)
    requires
        old(world).wf(),
    ensures
        final(world).wf(),
        exists|rolls: Seq<StarRoll>|
            are_star_rolls(rolls, old(world)@.arena, BACKDROP_FRAMES as nat) && final(world)@
                == sky_frames(start_of_sky(old(world)@), rolls, BACKDROP_FRAMES as nat),
        stars_only(final(world)@),
        final(world)@.pending.len() == 0,
        all_gone(old(world)@, final(world)@),
        final(world)@.arena == old(world)@.arena,
        final(world)@.control_state == old(world)@.control_state,
        final(world)@.elapsed == ElapsedSeconds(BACKDROP_FRAME_MICROS),
        final(world)@.playing_state == (PlayingGameState { score: 0, lives_left: STARTING_LIVES }),
{
    world.delete_all();
    world.set_elapsed(ElapsedSeconds(BACKDROP_FRAME_MICROS));
    world.set_playing_state(PlayingGameState::new());
    let ghost emptied = world@;
    let ghost mut rolls: Seq<StarRoll> = Seq::empty();
    assert(emptied == start_of_sky(old(world)@));
    let mut star_spawner = StarSpawner;
    let mut update_position = UpdatePos;
    let mut frame: u32 = 0;
    while frame < BACKDROP_FRAMES
        invariant
            world.wf(),
            frame <= BACKDROP_FRAMES,
            are_star_rolls(rolls, emptied.arena, frame as nat),
            world@ == sky_frames(emptied, rolls, frame as nat),
            world@.pending.len() == 0,
            stars_only(world@),
            world@.arena == emptied.arena,
            world@.control_state == emptied.control_state,
            world@.playing_state == emptied.playing_state,
            world@.elapsed == emptied.elapsed,
            world@.generations.len() >= emptied.generations.len(),
            forall|i: int|
                0 <= i < emptied.generations.len() ==> #[trigger] world@.generations[i]
                    == emptied.generations[i],
        decreases BACKDROP_FRAMES - frame,
    {
        let ghost before = world@;
        let ghost rolls_before = rolls;
        star_spawner.run(world, rng);
        let ghost roll = choose|roll: StarRoll|
            roll.fits(before.arena) && world@ == before.queue_all(stars(before, roll));
        update_position.run(world);
        world.maintain();
        proof {
            sky_frame_keeps_stars(before, roll);
            assert(world@ == sky_frame(before, roll));
            rolls = rolls.push(roll);
            sky_frames_are_settled(emptied, rolls_before, roll, frame as nat);
            assert forall|k: int| 0 <= k < frame + 1 implies (#[trigger] rolls[k]).fits(
                emptied.arena,
            ) by {
                if k < frame {
                    assert(rolls[k] == rolls_before[k]);
                }
            }
            assert forall|i: int| 0 <= i < emptied.generations.len() implies #[trigger] world@
                .generations[i] == emptied.generations[i] by {
                assert(before.generations[i] == emptied.generations[i]);
            }
        }
        frame += 1;
    }
    proof {
        assert forall|e: Entity| #[trigger] old(world)@.is_alive(e) implies handle_is_stale(
            world@.generations,
            e,
        ) by {
            let i = e.index as int;
            assert(old(world)@.alive[i]);
            assert(emptied.generations[i] == old(world)@.generation_after_delete(i));
            assert(world@.generations[i] == emptied.generations[i]);
        }
    }
}

/// Whether the store is that of a game that has just begun: one player,
/// newly made, and beside it stars only; nothing queued; no point scored
/// and no life spent.
pub open spec fn fresh_game(w: WorldView, player_size: (u32, u32)) -> bool {
    &&& w.pending.len() == 0
    &&& w.playing_state == (PlayingGameState { score: 0, lives_left: STARTING_LIVES })
    &&& exists|p: int|
        {
            &&& 0 <= p < w.data.len()
            &&& #[trigger] w.alive[p]
            &&& w.data[p] == new_player(player_size)
            &&& forall|j: int| 0 <= j < w.data.len() && j != p ==> #[trigger] star_or_nothing(w, j)
        }
}

/// A game begins with exactly one player: the store of a fresh game has a
/// player, and no second one, and nothing waits that would make one.
pub proof fn fresh_games_have_one_player(w: WorldView, player_size: (u32, u32))
    requires
        fresh_game(w, player_size),
    ensures
        !w.player_dead(),
        at_most_one_player(w.data),
        none_makes_a_player(w.pending),
{
    let p = choose|p: int|
        {
            &&& 0 <= p < w.data.len()
            &&& #[trigger] w.alive[p]
            &&& w.data[p] == new_player(player_size)
            &&& forall|j: int| 0 <= j < w.data.len() && j != p ==> #[trigger] star_or_nothing(w, j)
        };
    assert(w.data[p].is_player is Some);
    assert forall|i: int, j: int|
        0 <= i < w.data.len() && 0 <= j < w.data.len() && (#[trigger] w.data[i]).is_player is Some
            && (#[trigger] w.data[j]).is_player is Some implies i == j by {
        if i != p {
            assert(star_or_nothing(w, i));
        }
        if j != p {
            assert(star_or_nothing(w, j));
        }
    }
}

/// Begins a game: deletes everything, fills the sky and puts a player in.
pub fn reset(world: &mut World, player_size: (u32, u32), rng: &mut RandomSource)
    requires
        old(world).wf(),
    ensures
        final(world).wf(),
        fresh_game(final(world)@, player_size),
        all_gone(old(world)@, final(world)@),
        final(world)@.arena == old(world)@.arena,
        final(world)@.control_state == old(world)@.control_state,
{
    initialize_world(world, rng);
    let ghost sky = world@;
    let player = world.create_now(make_player(player_size));
    proof {
        first_free_is_least(sky.alive, sky.generations, 0);
        let p = sky.next_index();
        assert(world@.alive[p]);
        assert forall|j: int| 0 <= j < world@.data.len() && j != p implies #[trigger] star_or_nothing(
            world@,
            j,
        ) by {
            assert(world@.data[j] == sky.data[j]);
            assert(star_or_nothing(sky, j));
        }
        assert forall|e: Entity| #[trigger] old(world)@.is_alive(e) implies handle_is_stale(
            world@.generations,
            e,
        ) by {
            assert(handle_is_stale(sky.generations, e));
        }
    }
}

/// Plays one idle frame. Where it ends the waiting, the game begins: the
/// store is that of a fresh game. Else the store stays as it is.
pub fn idle_frame(
    button_pressed: bool,
    control_state: ControlState,
    world: &mut World,
    player_size: (u32, u32),
    rng: &mut RandomSource,
) -> (next: GameState)
    requires
        old(world).wf(),
    ensures
        final(world).wf(),
        next == idled(button_pressed, control_state),
        next is Playing ==> fresh_game(final(world)@, player_size) && all_gone(
            old(world)@,
            final(world)@,
        ),
        !(next is Playing) ==> final(world)@ == old(world)@,
{
    let next = idle(button_pressed, control_state);
    match next {
        GameState::Playing { .. } => {
            reset(world, player_size, rng);
        },
        _ => {},
    }
    next
}

} // verus!
