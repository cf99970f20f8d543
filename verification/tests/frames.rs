use spinny::player::{
    ANCHOR_DROP, DEMO_STEP_BITS, INDICATOR_RADIUS, SPINNY_START_BITS, SPINNY_STEP_BITS,
    SPINNY_STRIDE,
};
use spinny::{Anchor, Color, Command, Keys, Offset, Player, Point, Radians, Rect, Style};

const NONE: Keys = Keys { up: false, down: false, left: false, right: false };
const UP: Keys = Keys { up: true, down: false, left: false, right: false };
const DOWN: Keys = Keys { up: false, down: true, left: false, right: false };
const LEFT: Keys = Keys { up: false, down: false, left: true, right: false };
const RIGHT: Keys = Keys { up: false, down: false, left: false, right: true };

fn angle(value: f32) -> Radians {
    Radians { bits: value.to_bits() }
}

fn value(angle: Radians) -> f32 {
    f32::from_bits(angle.bits)
}

fn rotate(yaw: Radians, length: u32) -> Offset {
    let a = value(yaw);
    let r = length as f32;
    Offset { dx: (r * a.cos() - r * a.sin()) as i32, dy: (r * a.cos() + r * a.sin()) as i32 }
}

fn plus(a: Radians, b: Radians) -> Radians {
    angle(value(a) + value(b))
}

fn minus(a: Radians, b: Radians) -> Radians {
    angle(value(a) - value(b))
}

fn sprite(style: Style) -> Player<&'static str> {
    Player::new(
        Rect { x: 128, y: 128, w: 32, h: 32 },
        Rect { x: 0, y: 0, w: 64, h: 64 },
        "atlas",
        style,
    )
}

fn line_of(calls: &[Command]) -> (Point, Point) {
    match calls[2] {
        Command::DrawLine { from, to } => (from, to),
        other => panic!("no line: {other:?}"),
    }
}

#[test]
fn style_constants_are_the_single_precision_values() {
    assert_eq!(SPINNY_START_BITS, (std::f32::consts::PI * 1.25).to_bits());
    assert_eq!(SPINNY_STEP_BITS, 0.2f32.to_bits());
    assert_eq!(DEMO_STEP_BITS, 0.1f32.to_bits());
    assert_eq!(SPINNY_STRIDE, 16);
    assert_eq!(INDICATOR_RADIUS, 64);
    assert_eq!(ANCHOR_DROP, 16);
}

#[test]
fn spinny_style_turns_fast_walks_and_points_from_the_centre() {
    let style = Style::spinny();
    assert_eq!(value(style.start), std::f32::consts::PI * 1.25);
    assert_eq!(value(style.step), 0.2);
    assert_eq!(style.stride, Some(16));
    assert_eq!(style.anchor, Anchor::Center);
}

#[test]
fn demo_style_turns_slowly_stays_put_and_points_from_the_corner() {
    let style = Style::demo(angle(std::f32::consts::PI));
    assert_eq!(value(style.start), std::f32::consts::PI);
    assert_eq!(value(style.step), 0.1);
    assert_eq!(style.stride, None);
    assert_eq!(style.anchor, Anchor::Corner);
}

#[test]
fn new_player_faces_where_its_style_starts() {
    let player = sprite(Style::spinny());
    assert_eq!(player.location, Rect { x: 128, y: 128, w: 32, h: 32 });
    assert_eq!(player.texture_location, Rect { x: 0, y: 0, w: 64, h: 64 });
    assert_eq!(player.texture, "atlas");
    assert_eq!(player.style, Style::spinny());
    assert_eq!(player.yaw, Radians { bits: 0x407B_53D2 });
    assert_eq!(value(player.yaw), std::f32::consts::PI * 1.25);
}

#[test]
fn no_key_changes_nothing() {
    let mut player = sprite(Style::spinny());
    player.move_player(NONE, rotate, plus, minus);
    assert_eq!(player.location, Rect { x: 128, y: 128, w: 32, h: 32 });
    assert_eq!(player.yaw, Radians { bits: 0x407B_53D2 });
    assert_eq!(player.texture_location, Rect { x: 0, y: 0, w: 64, h: 64 });
    assert_eq!(player.texture, "atlas");
    assert_eq!(player.style, Style::spinny());
}

#[test]
fn right_presses_climb_by_the_step_then_start_again_at_zero() {
    let mut player = sprite(Style::spinny());
    let expected: [u32; 14] = [
        0x4084_104F, 0x408A_76B5, 0x4090_DD1B, 0x4097_4381, 0x409D_A9E7, 0x40A4_104D,
        0x40AA_76B3, 0x40B0_DD19, 0x40B7_437F, 0x40BD_A9E5, 0x40C4_104B, 0x0000_0000,
        0x3E4C_CCCD, 0x3ECC_CCCD,
    ];
    for (press, &bits) in expected.iter().enumerate() {
        let before = value(player.yaw);
        player.move_player(RIGHT, rotate, plus, minus);
        assert_eq!(player.yaw, Radians { bits }, "press {press}");
        let after = value(player.yaw);
        if before + 0.2 > std::f32::consts::PI * 2. {
            assert_eq!(after.to_bits(), 0);
        } else {
            assert_eq!(after, before + 0.2);
            assert!(after > before);
        }
        assert_eq!(player.location, Rect { x: 128, y: 128, w: 32, h: 32 });
    }
}

#[test]
fn left_presses_descend_by_the_step_then_start_again_at_the_full_turn() {
    let mut player = sprite(Style::spinny());
    player.yaw = angle(0.5);
    let expected: [u32; 5] = [0x3E99_999A, 0x3DCC_CCCE, 0x40C9_0FDB, 0x40C2_A975, 0x40BC_430F];
    for (press, &bits) in expected.iter().enumerate() {
        let before = value(player.yaw);
        player.move_player(LEFT, rotate, plus, minus);
        assert_eq!(player.yaw, Radians { bits }, "press {press}");
        let after = value(player.yaw);
        if before - 0.2 < 0. {
            assert_eq!(after, std::f32::consts::PI * 2.);
        } else {
            assert_eq!(after, before - 0.2);
            assert!(after < before);
        }
    }
}

#[test]
fn demo_turns_by_a_tenth() {
    let mut player = sprite(Style::demo(angle(0.0)));
    let expected: [u32; 4] = [0x3DCC_CCCD, 0x3E4C_CCCD, 0x3E99_999A, 0x3ECC_CCCD];
    for &bits in &expected {
        player.move_player(RIGHT, rotate, plus, minus);
        assert_eq!(player.yaw, Radians { bits });
    }
    player.yaw = angle(6.2);
    player.move_player(RIGHT, rotate, plus, minus);
    assert_eq!(player.yaw, Radians { bits: 0 });
    player.move_player(LEFT, rotate, plus, minus);
    assert_eq!(player.yaw, Radians::full_turn());
}

#[test]
fn heading_at_the_full_turn_is_kept() {
    let mut player = sprite(Style::spinny());
    player.yaw = angle(std::f32::consts::PI * 2. - 0.2);
    player.move_player(RIGHT, rotate, plus, minus);
    let sum = std::f32::consts::PI * 2. - 0.2 + 0.2;
    if sum > std::f32::consts::PI * 2. {
        assert_eq!(player.yaw, Radians { bits: 0 });
    } else {
        assert_eq!(value(player.yaw), sum);
    }
    player.yaw = Radians::full_turn();
    player.move_player(NONE, rotate, plus, minus);
    assert_eq!(player.yaw, Radians::full_turn());
}

#[test]
fn left_from_zero_goes_to_the_full_turn() {
    let mut player = sprite(Style::spinny());
    player.yaw = Radians::zero();
    player.move_player(LEFT, rotate, plus, minus);
    assert_eq!(player.yaw, Radians { bits: 0x40C9_0FDB });
}

#[test]
fn right_is_handled_before_left() {
    let mut player = sprite(Style::spinny());
    let both = Keys { up: false, down: false, left: true, right: true };
    player.move_player(both, rotate, plus, minus);
    assert_eq!(player.yaw, Radians { bits: 0x407B_53D1 });
    assert_eq!(value(player.yaw), std::f32::consts::PI * 1.25 + 0.2 - 0.2);

    player.yaw = angle(6.2);
    player.move_player(both, rotate, plus, minus);
    assert_eq!(player.yaw, Radians::full_turn());
}

#[test]
fn up_at_heading_zero_moves_sixteen_both_ways() {
    let mut player = sprite(Style::spinny());
    player.yaw = Radians::zero();
    player.move_player(UP, rotate, plus, minus);
    assert_eq!(player.location, Rect { x: 144, y: 144, w: 32, h: 32 });
    assert_eq!(player.yaw, Radians::zero());
}

#[test]
fn up_moves_by_the_heading_before_the_turn() {
    let mut player = sprite(Style::spinny());
    player.yaw = Radians::zero();
    let keys = Keys { up: true, down: false, left: false, right: true };
    player.move_player(keys, rotate, plus, minus);
    assert_eq!(player.location, Rect { x: 144, y: 144, w: 32, h: 32 });
    assert_eq!(player.yaw, angle(0.2));
    player.move_player(keys, rotate, plus, minus);
    let step = rotate(angle(0.2), 16);
    assert_eq!(step, Offset { dx: 12, dy: 18 });
    assert_eq!(player.location, Rect { x: 156, y: 162, w: 32, h: 32 });
}

#[test]
fn up_from_the_start_moves_up_the_screen() {
    let mut player = sprite(Style::spinny());
    player.move_player(UP, rotate, plus, minus);
    assert_eq!(player.location, Rect { x: 128, y: 106, w: 32, h: 32 });
}

#[test]
fn up_does_nothing_without_a_stride() {
    let mut player = sprite(Style::demo(angle(0.0)));
    player.move_player(UP, rotate, plus, minus);
    assert_eq!(player.location, Rect { x: 128, y: 128, w: 32, h: 32 });
    assert_eq!(player.yaw, angle(0.0));
    assert_eq!(player.stride(UP), None);
    assert_eq!(sprite(Style::spinny()).stride(UP), Some(16));
    assert_eq!(sprite(Style::spinny()).stride(DOWN), None);
}

#[test]
fn down_does_nothing() {
    for style in [Style::spinny(), Style::demo(angle(1.0))] {
        let mut player = sprite(style);
        player.move_player(DOWN, rotate, plus, minus);
        assert_eq!(player.location, Rect { x: 128, y: 128, w: 32, h: 32 });
        assert_eq!(player.yaw, style.start);

        let mut with = sprite(style);
        let mut without = sprite(style);
        with.move_player(Keys { up: true, down: true, left: true, right: true }, rotate, plus, minus);
        without.move_player(
            Keys { up: true, down: false, left: true, right: true },
            rotate,
            plus,
            minus,
        );
        assert_eq!(with.location, without.location);
        assert_eq!(with.yaw, without.yaw);
    }
}

#[test]
fn functions_are_called_with_the_heading_and_the_style() {
    let mut player = sprite(Style::spinny());
    let keys = Keys { up: true, down: false, left: true, right: true };
    player.move_player(
        keys,
        |yaw, length| {
            assert_eq!(yaw, Radians { bits: SPINNY_START_BITS });
            assert_eq!(length, 16);
            Offset { dx: -3, dy: 5 }
        },
        |yaw, step| {
            assert_eq!(yaw, Radians { bits: SPINNY_START_BITS });
            assert_eq!(step, Radians { bits: SPINNY_STEP_BITS });
            angle(7.0)
        },
        |yaw, step| {
            assert_eq!(yaw, Radians::zero());
            assert_eq!(step, Radians { bits: SPINNY_STEP_BITS });
            angle(2.5)
        },
    );
    assert_eq!(player.location, Rect { x: 125, y: 133, w: 32, h: 32 });
    assert_eq!(player.yaw, angle(2.5));
}

#[test]
fn heading_zero_points_radius_right_and_radius_down() {
    assert_eq!(rotate(Radians::zero(), 64), Offset { dx: 64, dy: 64 });

    let mut spinny = sprite(Style::spinny());
    spinny.yaw = Radians::zero();
    let (from, to) = line_of(&spinny.draw(rotate));
    assert_eq!(from, Point { x: 144, y: 144 });
    assert_eq!(to, Point { x: 208, y: 208 });
    assert_eq!((to.x - from.x, to.y - from.y), (64, 64));

    let demo = sprite(Style::demo(Radians::zero()));
    let (from, to) = line_of(&demo.draw(rotate));
    assert_eq!(from, Point { x: 128, y: 128 });
    assert_eq!(to, Point { x: 192, y: 192 });
}

#[test]
fn heading_pi_points_about_radius_left_and_radius_up() {
    let demo = sprite(Style::demo(angle(std::f32::consts::PI)));
    let (from, to) = line_of(&demo.draw(rotate));
    assert_eq!(from, Point { x: 128, y: 128 });
    assert!((to.x - from.x + 64).abs() <= 1, "{to:?}");
    assert!((to.y - from.y + 64).abs() <= 1, "{to:?}");
    assert_eq!(to, from.shifted(rotate(angle(std::f32::consts::PI), 64)));
}

#[test]
fn draw_copies_the_sprite_sets_the_colour_and_draws_the_line() {
    let player = sprite(Style::spinny());
    let calls = player.draw(|yaw, length| {
        assert_eq!(yaw, Radians { bits: SPINNY_START_BITS });
        assert_eq!(length, 64);
        Offset { dx: -10, dy: 7 }
    });
    assert_eq!(
        calls,
        vec![
            Command::Copy {
                source: Rect { x: 0, y: 0, w: 64, h: 64 },
                target: Rect { x: 128, y: 128, w: 32, h: 32 },
            },
            Command::SetDrawColor { color: Color { r: 99, g: 155, b: 255 } },
            Command::DrawLine { from: Point { x: 144, y: 144 }, to: Point { x: 134, y: 151 } },
        ]
    );
    assert_eq!(Color::accent(), Color { r: 99, g: 155, b: 255 });
}

#[test]
fn scene_is_what_draw_gives_for_the_same_reach() {
    let player = sprite(Style::spinny());
    let reach = rotate(player.yaw, INDICATOR_RADIUS);
    assert_eq!(player.scene(reach), player.draw(rotate));
    assert_eq!(reach, Offset { dx: 0, dy: -90 });
}

#[test]
fn centred_line_starts_half_the_width_across_and_sixteen_down() {
    let mut player = sprite(Style::spinny());
    player.location = Rect { x: 10, y: 20, w: 101, h: 7 };
    let (from, to) = line_of(&player.scene(Offset { dx: 1, dy: 2 }));
    assert_eq!(from, Point { x: 60, y: 36 });
    assert_eq!(to, Point { x: 61, y: 38 });
}

#[test]
fn line_must_have_pixel_coordinates_at_both_ends() {
    let mut player = sprite(Style::spinny());
    assert!(player.can_point(Offset { dx: 64, dy: 64 }));
    assert!(player.can_point(Offset { dx: i32::MAX - 144, dy: i32::MIN + 144 }));
    assert!(!player.can_point(Offset { dx: i32::MAX - 143, dy: 0 }));
    assert!(!player.can_point(Offset { dx: 0, dy: i32::MAX - 143 }));

    player.location = Rect { x: i32::MAX - 15, y: 0, w: 32, h: 32 };
    assert!(!player.can_point(Offset { dx: 0, dy: 0 }));
    assert!(!player.can_point(Offset { dx: -64, dy: 0 }));
    player.location = Rect { x: i32::MAX - 16, y: i32::MAX - 16, w: 32, h: 32 };
    assert!(player.can_point(Offset { dx: 0, dy: 0 }));
    assert!(!player.can_point(Offset { dx: 1, dy: 0 }));
    player.location = Rect { x: 0, y: i32::MAX - 15, w: 32, h: 32 };
    assert!(!player.can_point(Offset { dx: 0, dy: -64 }));

    let mut corner = sprite(Style::demo(Radians::zero()));
    corner.location = Rect { x: i32::MAX, y: i32::MIN, w: 32, h: 32 };
    assert!(corner.can_point(Offset { dx: 0, dy: 0 }));
    assert!(corner.can_point(Offset { dx: -5, dy: 5 }));
    assert!(!corner.can_point(Offset { dx: 1, dy: 0 }));
    assert!(!corner.can_point(Offset { dx: 0, dy: -1 }));
}
