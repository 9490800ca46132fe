//! What the drawing side needs worked out for it: which pictures there
//! are, whether all that the game needs were loaded, and where on the
//! screen, in whole pixels, things go.

use vstd::prelude::*;
use crate::components::{Draw, Position, Sprite};
use crate::direction::quotient_toward_zero;
use crate::resources::{EntitySizes, TextPosition, UNITS_PER_WHOLE};

verus! {

/// How a picture is laid over what is on the screen already.
#[derive(Debug, Copy, Clone, PartialEq, Eq, Structural)]
pub enum Blend {
    /// The picture covers what is beneath it, as far as it is opaque.
    Over,
    /// The picture's light is added to what is beneath it.
    Add,
}

/// The pictures of the game, in the order in which they are loaded.
pub open spec fn all_sprites() -> Seq<Sprite> {
    seq![
        Sprite::UFO,
        Sprite::Player,
        Sprite::PlayerGhost,
        Sprite::BasicShot,
        Sprite::UFOShot,
        Sprite::Glow,
    ]
}

/// The file that holds the picture of `sprite`.
pub open spec fn picture_file(sprite: Sprite) -> Seq<char> {
    match sprite {
        Sprite::UFO => "ufo.png"@,
        Sprite::Player => "player.png"@,
        Sprite::PlayerGhost => "player_ghost.png"@,
        Sprite::BasicShot => "basic_shot.png"@,
        Sprite::UFOShot => "ufo_shot.png"@,
        Sprite::Glow => "glow.png"@,
    }
}

/// How the picture of `sprite` is laid over the screen: glow adds light,
/// everything else covers.
pub open spec fn picture_blend(sprite: Sprite) -> Blend {
    match sprite {
        Sprite::Glow => Blend::Add,
        _ => Blend::Over,
    }
}

/// Every picture of the game.
pub fn sprites_to_load() -> (v: Vec<Sprite>)
    ensures
        v@ == all_sprites(),
{
    let v = vec![
        Sprite::UFO,
        Sprite::Player,
        Sprite::PlayerGhost,
        Sprite::BasicShot,
        Sprite::UFOShot,
        Sprite::Glow,
    ];
    assert(v@ =~= all_sprites());
    v
}

/// Every sprite is among the pictures of the game.
pub proof fn every_sprite_is_loaded(sprite: Sprite)
    ensures
        all_sprites().contains(sprite),
{
    match sprite {
        Sprite::UFO => assert(all_sprites()[0] == sprite),
        Sprite::Player => assert(all_sprites()[1] == sprite),
        Sprite::PlayerGhost => assert(all_sprites()[2] == sprite),
        Sprite::BasicShot => assert(all_sprites()[3] == sprite),
        Sprite::UFOShot => assert(all_sprites()[4] == sprite),
        Sprite::Glow => assert(all_sprites()[5] == sprite),
    }
}

/// Names the file that holds the picture of `sprite`.
pub fn file_of(sprite: Sprite) -> (name: &'static str)
    ensures
        name@ == picture_file(sprite),
{
    match sprite {
        Sprite::UFO => "ufo.png",
        Sprite::Player => "player.png",
        Sprite::PlayerGhost => "player_ghost.png",
        Sprite::BasicShot => "basic_shot.png",
        Sprite::UFOShot => "ufo_shot.png",
        Sprite::Glow => "glow.png",
    }
}

/// Tells how the picture of `sprite` is laid over the screen.
pub fn blend_of(sprite: Sprite) -> (blend: Blend)
    ensures
        blend == picture_blend(sprite),
{
    match sprite {
        Sprite::Glow => Blend::Add,
        _ => Blend::Over,
    }
}

/// Why something cannot be drawn.
#[derive(Debug, Copy, Clone, PartialEq, Eq, Structural)]
pub enum RenderError {
    /// No picture was loaded for the sprite.
    MissingPicture(Sprite),
}

/// A picture that was loaded: the sprite it is for and its size in whole
/// pixels, width first.
#[derive(Debug, Copy, Clone)]
pub struct LoadedPicture {
    pub sprite: Sprite,
    pub width: u32,
    pub height: u32,
}

/// The size of the first among the first `n` loaded pictures that is for
/// `sprite`.
pub open spec fn size_among(loaded: Seq<LoadedPicture>, sprite: Sprite, n: nat) -> Option<
    (u32, u32),
>
    decreases n,
{
    if n == 0 {
        None
    } else {
        match size_among(loaded, sprite, (n - 1) as nat) {
            Some(size) => Some(size),
            None => if loaded[n - 1].sprite == sprite {
                Some((loaded[n - 1].width, loaded[n - 1].height))
            } else {
                None
            },
        }
    }
}

/// The size of the picture that was loaded for `sprite`, or the complaint
/// that none was.
pub open spec fn size_of_picture(loaded: Seq<LoadedPicture>, sprite: Sprite) -> Result<
    (u32, u32),
    RenderError,
> {
    match size_among(loaded, sprite, loaded.len()) {
        Some(size) => Ok(size),
        None => Err(RenderError::MissingPicture(sprite)),
    }
}

/// A size found among the first `n` pictures is the size found among
/// more of them.
pub proof fn size_found_stays(loaded: Seq<LoadedPicture>, sprite: Sprite, n: nat, more: nat)
    requires
        n <= more,
        size_among(loaded, sprite, n) is Some,
    ensures
        size_among(loaded, sprite, more) == size_among(loaded, sprite, n),
    decreases more,
{
    if n < more {
        size_found_stays(loaded, sprite, n, (more - 1) as nat);
    }
}

/// Looks the size of the picture of `sprite` up.
pub fn get_texture_size(loaded: &Vec<LoadedPicture>, sprite: Sprite) -> (r: Result<
    (u32, u32),
    RenderError,
>)
    ensures
        r == size_of_picture(loaded@, sprite),
{
    let n = loaded.len();
    let mut i: usize = 0;
    while i < n
        invariant
            n == loaded@.len(),
            i <= n,
            size_among(loaded@, sprite, i as nat) is None,
        decreases n - i,
    {
        if loaded[i].sprite == sprite {
            proof {
                size_found_stays(loaded@, sprite, (i + 1) as nat, n as nat);
            }
            return Ok((loaded[i].width, loaded[i].height));
        }
        i += 1;
    }
    Err(RenderError::MissingPicture(sprite))
}

/// The sizes that the spawning systems need, or the complaint about the
/// first picture that is missing; the alien's picture is looked for
/// first, then the player's, the player's shot and the alien's shot.
pub open spec fn sizes_from(loaded: Seq<LoadedPicture>) -> Result<EntitySizes, RenderError> {
    match size_of_picture(loaded, Sprite::UFO) {
        Err(e) => Err(e),
        Ok(ufo_size) => match size_of_picture(loaded, Sprite::Player) {
            Err(e) => Err(e),
            Ok(player_size) => match size_of_picture(loaded, Sprite::BasicShot) {
                Err(e) => Err(e),
                Ok(basic_shot_size) => match size_of_picture(loaded, Sprite::UFOShot) {
                    Err(e) => Err(e),
                    Ok(ufo_shot_size) => Ok(
                        EntitySizes { player_size, basic_shot_size, ufo_size, ufo_shot_size },
                    ),
                },
            },
        },
    }
}

/// Gathers the sizes that the spawning systems need from the pictures
/// that were loaded.
pub fn entity_sizes(loaded: &Vec<LoadedPicture>) -> (r: Result<EntitySizes, RenderError>)
    ensures
        r == sizes_from(loaded@),
{
    let ufo_size = match get_texture_size(loaded, Sprite::UFO) {
        Ok(size) => size,
        Err(e) => {
            return Err(e);
        },
    };
    let player_size = match get_texture_size(loaded, Sprite::Player) {
        Ok(size) => size,
        Err(e) => {
            return Err(e);
        },
    };
    let basic_shot_size = match get_texture_size(loaded, Sprite::BasicShot) {
        Ok(size) => size,
        Err(e) => {
            return Err(e);
        },
    };
    let ufo_shot_size = match get_texture_size(loaded, Sprite::UFOShot) {
        Ok(size) => size,
        Err(e) => {
            return Err(e);
        },
    };
    Ok(EntitySizes { ufo_size, player_size, basic_shot_size, ufo_shot_size })
}

/// `x` pulled into the range from `low` to `high`.
pub open spec fn clamped(x: int, low: int, high: int) -> int {
    if x < low {
        low
    } else if x > high {
        high
    } else {
        x
    }
}

/// The whole pixel that the coordinate `micro`, in micro-pixels, falls
/// into, counted towards zero.
pub open spec fn whole_pixels(micro: int) -> int {
    quotient_toward_zero(micro, UNITS_PER_WHOLE as int)
}

/// Counts a coordinate in whole pixels, towards zero.
pub fn to_whole_pixels(micro: i64) -> (px: i64)
    ensures
        px == whole_pixels(micro as int),
        -9_223_372_036_855 <= px <= 9_223_372_036_855,
{
    if micro >= 0 {
        micro / UNITS_PER_WHOLE
    } else if micro == i64::MIN {
        -9_223_372_036_854
    } else {
        -((-micro) / UNITS_PER_WHOLE)
    }
}

/// A rectangle of the screen, in whole pixels.
#[derive(Debug, Copy, Clone, PartialEq, Eq, Structural)]
pub struct ScreenRect {
    pub x: i32,
    pub y: i32,
    pub width: u32,
    pub height: u32,
}

/// Where the picture of an entity at `position` is drawn: at the whole
/// pixel of its top-left corner, as far as the screen's coordinates reach,
/// in the picture's own size.
pub open spec fn picture_target(position: Position, size: (u32, u32)) -> ScreenRect {
    ScreenRect {
        x: clamped(whole_pixels(position.rect.spec_left()), i32::MIN as int, i32::MAX as int) as i32,
        y: clamped(whole_pixels(position.rect.spec_top()), i32::MIN as int, i32::MAX as int) as i32,
        width: size.0,
        height: size.1,
    }
}

/// Pulls a number into the range of `i32`.
pub fn clamp_i32(x: i64) -> (r: i32)
    ensures
        r == clamped(x as int, i32::MIN as int, i32::MAX as int),
{
    if x < i32::MIN as i64 {
        i32::MIN
    } else if x > i32::MAX as i64 {
        i32::MAX
    } else {
        x as i32
    }
}

/// Pulls a number into the range of `i16`.
pub fn clamp_i16(x: i64) -> (r: i16)
    ensures
        r == clamped(x as int, i16::MIN as int, i16::MAX as int),
{
    if x < i16::MIN as i64 {
        i16::MIN
    } else if x > i16::MAX as i64 {
        i16::MAX
    } else {
        x as i16
    }
}

/// Works out where the picture of an entity is drawn.
pub fn target_of_picture(position: &Position, size: (u32, u32)) -> (r: ScreenRect)
    ensures
        r == picture_target(*position, size),
{
    ScreenRect {
        x: clamp_i32(to_whole_pixels(position.rect.left())),
        y: clamp_i32(to_whole_pixels(position.rect.top())),
        width: size.0,
        height: size.1,
    }
}

/// A filled circle on the screen, in whole pixels.
#[derive(Debug, Copy, Clone, PartialEq, Eq, Structural)]
pub struct ScreenCircle {
    pub x: i16,
    pub y: i16,
    pub radius: i16,
}

/// Where the shape of an entity at `position` is drawn: a star is a circle
/// round the middle of the entity.
pub open spec fn shape_target(position: Position, shape: Draw) -> ScreenCircle {
    let Draw::Star(radius) = shape;
    let middle = position.rect.spec_center();
    ScreenCircle {
        x: clamped(whole_pixels(middle.0 as int), i16::MIN as int, i16::MAX as int) as i16,
        y: clamped(whole_pixels(middle.1 as int), i16::MIN as int, i16::MAX as int) as i16,
        radius,
    }
}

/// Works out where the shape of an entity is drawn.
pub fn target_of_shape(position: &Position, shape: Draw) -> (r: ScreenCircle)
    requires
        position.rect.wf(),
    ensures
        r == shape_target(*position, shape),
{
    let middle = position.rect.center();
    match shape {
        Draw::Star(radius) => ScreenCircle {
            x: clamp_i16(to_whole_pixels(middle.0)),
            y: clamp_i16(to_whole_pixels(middle.1)),
            radius,
        },
    }
}

/// The top-left corner of a text `width` wide and `height` high that is
/// anchored at `anchor`: a centred text has its middle there, a text at
/// the top right its top-right corner.
pub open spec fn text_corner(anchor: TextPosition, width: u32, height: u32) -> (i32, i32) {
    match anchor {
        TextPosition::Center(x, y) => (
            clamped(x - width / 2, i32::MIN as int, i32::MAX as int) as i32,
            clamped(y - height / 2, i32::MIN as int, i32::MAX as int) as i32,
        ),
        TextPosition::TopRight(x, y) => (
            clamped(x - width, i32::MIN as int, i32::MAX as int) as i32,
            clamped(y as int, i32::MIN as int, i32::MAX as int) as i32,
        ),
    }
}

/// Works out the top-left corner of a text.
pub fn text_top_left(anchor: TextPosition, width: u32, height: u32) -> (corner: (i32, i32))
    ensures
        corner == text_corner(anchor, width, height),
{
    match anchor {
        TextPosition::Center(x, y) => (
            clamp_i32(x as i64 - (width / 2) as i64),
            clamp_i32(y as i64 - (height / 2) as i64),
        ),
        TextPosition::TopRight(x, y) => (clamp_i32(x as i64 - width as i64), clamp_i32(y as i64)),
    }
}

} // verus!
