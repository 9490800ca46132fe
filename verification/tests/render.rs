use rideways::components::{Draw, Position, Sprite};
use rideways::geometry::{Position as Point, Rect, RectSize};
use rideways::render::{
    blend_of, clamp_i16, clamp_i32, entity_sizes, file_of, get_texture_size, sprites_to_load,
    target_of_picture, target_of_shape, text_top_left, to_whole_pixels, Blend, LoadedPicture,
    RenderError, ScreenCircle, ScreenRect,
};
use rideways::resources::TextPosition;

const PX: i64 = 1_000_000;

fn picture(sprite: Sprite, width: u32, height: u32) -> LoadedPicture {
    LoadedPicture { sprite, width, height }
}

fn all_loaded() -> Vec<LoadedPicture> {
    vec![
        picture(Sprite::UFO, 30, 31),
        picture(Sprite::Player, 40, 20),
        picture(Sprite::PlayerGhost, 41, 21),
        picture(Sprite::BasicShot, 16, 4),
        picture(Sprite::UFOShot, 8, 9),
        picture(Sprite::Glow, 5, 5),
    ]
}

#[test]
fn every_sprite_has_a_picture_file() {
    assert_eq!(
        sprites_to_load(),
        vec![
            Sprite::UFO,
            Sprite::Player,
            Sprite::PlayerGhost,
            Sprite::BasicShot,
            Sprite::UFOShot,
            Sprite::Glow,
        ]
    );
    assert_eq!(file_of(Sprite::UFO), "ufo.png");
    assert_eq!(file_of(Sprite::Player), "player.png");
    assert_eq!(file_of(Sprite::PlayerGhost), "player_ghost.png");
    assert_eq!(file_of(Sprite::BasicShot), "basic_shot.png");
    assert_eq!(file_of(Sprite::UFOShot), "ufo_shot.png");
    assert_eq!(file_of(Sprite::Glow), "glow.png");
}

#[test]
fn only_glow_adds_its_light() {
    assert_eq!(blend_of(Sprite::Glow), Blend::Add);
    assert_eq!(blend_of(Sprite::UFO), Blend::Over);
    assert_eq!(blend_of(Sprite::Player), Blend::Over);
    assert_eq!(blend_of(Sprite::PlayerGhost), Blend::Over);
    assert_eq!(blend_of(Sprite::BasicShot), Blend::Over);
    assert_eq!(blend_of(Sprite::UFOShot), Blend::Over);
}

#[test]
fn sizes_are_gathered_from_the_loaded_pictures() {
    let sizes = entity_sizes(&all_loaded()).unwrap();
    assert_eq!(sizes.ufo_size, (30, 31));
    assert_eq!(sizes.player_size, (40, 20));
    assert_eq!(sizes.basic_shot_size, (16, 4));
    assert_eq!(sizes.ufo_shot_size, (8, 9));
    assert_eq!(get_texture_size(&all_loaded(), Sprite::Glow), Ok((5, 5)));
}

#[test]
fn the_first_picture_of_a_sprite_counts() {
    let loaded = vec![picture(Sprite::UFO, 1, 2), picture(Sprite::UFO, 3, 4)];
    assert_eq!(get_texture_size(&loaded, Sprite::UFO), Ok((1, 2)));
}

#[test]
fn a_missing_picture_is_reported() {
    assert_eq!(
        get_texture_size(&vec![], Sprite::Glow),
        Err(RenderError::MissingPicture(Sprite::Glow))
    );
    let mut loaded = all_loaded();
    loaded.remove(3);
    assert_eq!(
        entity_sizes(&loaded).err(),
        Some(RenderError::MissingPicture(Sprite::BasicShot))
    );
    loaded.remove(0);
    assert_eq!(entity_sizes(&loaded).err(), Some(RenderError::MissingPicture(Sprite::UFO)));
    let without_glow_and_ghost =
        vec![all_loaded()[0], all_loaded()[1], all_loaded()[3], all_loaded()[4]];
    assert!(entity_sizes(&without_glow_and_ghost).is_ok());
    let without_ufo_shot = vec![all_loaded()[0], all_loaded()[1], all_loaded()[3]];
    assert_eq!(
        entity_sizes(&without_ufo_shot).err(),
        Some(RenderError::MissingPicture(Sprite::UFOShot))
    );
    let without_player = vec![all_loaded()[0]];
    assert_eq!(
        entity_sizes(&without_player).err(),
        Some(RenderError::MissingPicture(Sprite::Player))
    );
}

#[test]
fn coordinates_are_counted_in_whole_pixels_towards_zero() {
    assert_eq!(to_whole_pixels(0), 0);
    assert_eq!(to_whole_pixels(999_999), 0);
    assert_eq!(to_whole_pixels(1_000_000), 1);
    assert_eq!(to_whole_pixels(6_400_000), 6);
    assert_eq!(to_whole_pixels(-1), 0);
    assert_eq!(to_whole_pixels(-999_999), 0);
    assert_eq!(to_whole_pixels(-1_000_000), -1);
    assert_eq!(to_whole_pixels(-1_500_000), -1);
    assert_eq!(to_whole_pixels(i64::MAX), 9_223_372_036_854);
    assert_eq!(to_whole_pixels(i64::MIN), -9_223_372_036_854);
}

#[test]
fn numbers_are_pulled_into_range() {
    assert_eq!(clamp_i32(5), 5);
    assert_eq!(clamp_i32(i64::MAX), i32::MAX);
    assert_eq!(clamp_i32(i64::MIN), i32::MIN);
    assert_eq!(clamp_i16(-5), -5);
    assert_eq!(clamp_i16(40_000), i16::MAX);
    assert_eq!(clamp_i16(-40_000), i16::MIN);
}

#[test]
fn pictures_are_drawn_at_the_top_left_corner() {
    let position = Position { rect: Rect::new(Point(100 * PX + 7, 200 * PX - 1), RectSize(PX, PX)) };
    assert_eq!(
        target_of_picture(&position, (40, 20)),
        ScreenRect { x: 100, y: 199, width: 40, height: 20 }
    );
    let left_of_screen = Position { rect: Rect::new(Point(-5 * PX / 2, 0), RectSize(PX, PX)) };
    assert_eq!(
        target_of_picture(&left_of_screen, (1, 2)),
        ScreenRect { x: -2, y: 0, width: 1, height: 2 }
    );
    let far = Position { rect: Rect::new(Point(i64::MAX, i64::MIN), RectSize(PX, PX)) };
    assert_eq!(
        target_of_picture(&far, (1, 2)),
        ScreenRect { x: i32::MAX, y: i32::MIN, width: 1, height: 2 }
    );
}

#[test]
fn stars_are_drawn_round_their_middle() {
    let position =
        Position { rect: Rect::new(Point(100 * PX, 200 * PX), RectSize(10 * PX, 4 * PX)) };
    assert_eq!(
        target_of_shape(&position, Draw::Star(3)),
        ScreenCircle { x: 105, y: 202, radius: 3 }
    );
    let far = Position { rect: Rect::new(Point(40_000 * PX, -40_000 * PX), RectSize(0, 0)) };
    assert_eq!(
        target_of_shape(&far, Draw::Star(1)),
        ScreenCircle { x: i16::MAX, y: i16::MIN, radius: 1 }
    );
}

#[test]
fn texts_are_anchored_by_their_middle_or_their_top_right_corner() {
    assert_eq!(text_top_left(TextPosition::Center(600, 300), 401, 101), (400, 250));
    assert_eq!(text_top_left(TextPosition::TopRight(1200, 0), 250, 40), (950, 0));
    assert_eq!(text_top_left(TextPosition::Center(10, 10), 100, 100), (-40, -40));
    assert_eq!(text_top_left(TextPosition::TopRight(10, 7), 100, 100), (-90, 7));
    assert_eq!(
        text_top_left(TextPosition::TopRight(u32::MAX, u32::MAX), 0, 0),
        (i32::MAX, i32::MAX)
    );
    assert_eq!(text_top_left(TextPosition::TopRight(0, 0), u32::MAX, 0), (i32::MIN, 0));
}
