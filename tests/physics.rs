use pong::ball::{adjust_velocity, paddle_collision, sin_milli};
use pong::constants::{MAX_BALL_SPEED, SPEED_INCREASE_DEN, SPEED_INCREASE_NUM};
use pong::difficulty::Difficulty;
use pong::geometry::{ceil_isqrt, clamp_length, isqrt, mul_div, Vec2};
use pong::movement::{get_input_direction, handle_computer_movement, handle_player_input};

fn adjust(x: i32, y: i32) -> Vec2 {
    adjust_velocity(Vec2::new(x, y), SPEED_INCREASE_NUM, SPEED_INCREASE_DEN, MAX_BALL_SPEED)
}

#[test]
fn isqrt_exact_and_between_squares() {
    assert_eq!(isqrt(0), 0);
    assert_eq!(isqrt(1), 1);
    assert_eq!(isqrt(24), 4);
    assert_eq!(isqrt(25), 5);
    assert_eq!(isqrt(26), 5);
    assert_eq!(isqrt(u128::MAX), u64::MAX);
    assert_eq!(ceil_isqrt(25), 5);
    assert_eq!(ceil_isqrt(26), 6);
}

#[test]
fn mul_div_rounds_toward_zero() {
    assert_eq!(mul_div(7, 3, 2), 10);
    assert_eq!(mul_div(-7, 3, 2), -10);
    assert_eq!(mul_div(-7, 11, 10), -7);
}

#[test]
fn clamp_length_keeps_short_and_shortens_long() {
    assert_eq!(clamp_length(3, 4, 5), (3, 4));
    assert_eq!(clamp_length(30, 40, 5), (3, 4));
    assert_eq!(clamp_length(0, -2000, 1000), (0, -1000));
}

#[test]
fn speed_up_multiplies_vertical_component() {
    assert_eq!(adjust(200, 100), Vec2::new(200, 110));
    assert_eq!(adjust(5, -7), Vec2::new(5, -7));
}

#[test]
fn speed_up_is_clamped_to_max_speed() {
    assert_eq!(adjust(0, 1000), Vec2::new(0, 1000));
    assert_eq!(adjust(3000, 4000), Vec2::new(563, 826));
    assert_eq!(adjust(-700, -800), Vec2::new(-622, -782));
    let v = adjust(i32::MAX, i32::MIN);
    let len2 = (v.x as i64) * (v.x as i64) + (v.y as i64) * (v.y as i64);
    assert!(len2 <= 1_000_000);
}

#[test]
fn speed_cap_holds_for_other_factors() {
    let v = adjust_velocity(Vec2::new(900, 900), 3, 2, 1000);
    let len2 = (v.x as i64) * (v.x as i64) + (v.y as i64) * (v.y as i64);
    assert!(len2 <= 1_000_000);
    assert_eq!(adjust_velocity(Vec2::new(10, 10), 3, 2, 1000), Vec2::new(10, 15));
}

#[test]
fn sine_table_points() {
    assert_eq!(sin_milli(0), 0);
    assert_eq!(sin_milli(30), 500);
    assert_eq!(sin_milli(45), 705);
    assert_eq!(sin_milli(60), 864);
    assert_eq!(sin_milli(90), 1000);
}

#[test]
fn centre_hit_reflects_horizontally() {
    assert_eq!(paddle_collision(0, 0, Vec2::new(300, 400)), Vec2::new(-500, 0));
    assert_eq!(paddle_collision(-40, -40, Vec2::new(-300, 400)), Vec2::new(500, 0));
}

#[test]
fn edge_hit_deflects_ninety_degrees() {
    assert_eq!(paddle_collision(50, 0, Vec2::new(300, 400)), Vec2::new(0, 500));
    assert_eq!(paddle_collision(-80, 0, Vec2::new(-300, 400)), Vec2::new(0, -500));
}

#[test]
fn partial_hit_follows_the_sine() {
    assert_eq!(paddle_collision(25, 0, Vec2::new(300, 400)), Vec2::new(-355, 352));
    assert_eq!(paddle_collision(10, 0, Vec2::new(-600, 800)), Vec2::new(950, 310));
}

#[test]
fn computer_translation_clamped_to_difficult_cap() {
    let r = handle_computer_movement(Vec2::new(300, 0), Vec2::new(300, 50), Difficulty::Difficult);
    assert_eq!(r, Vec2::new(0, 4));
}

#[test]
fn computer_translation_within_cap_for_each_level() {
    let r = handle_computer_movement(Vec2::new(360, 20), Vec2::new(0, -500), Difficulty::Easy);
    assert_eq!(r, Vec2::new(0, -2));
    let r = handle_computer_movement(Vec2::new(360, 20), Vec2::new(0, 23), Difficulty::Impossible);
    assert_eq!(r, Vec2::new(0, 3));
    let r = handle_computer_movement(Vec2::new(0, i32::MIN), Vec2::new(0, i32::MAX), Difficulty::Impossible);
    assert_eq!(r, Vec2::new(0, 6));
}

#[test]
fn player_translation_follows_held_actions() {
    assert_eq!(get_input_direction(true, false), 1);
    assert_eq!(get_input_direction(true, true), 0);
    assert_eq!(handle_player_input(true, false), Vec2::new(0, 6));
    assert_eq!(handle_player_input(false, true), Vec2::new(0, -6));
    assert_eq!(handle_player_input(false, false), Vec2::new(0, 0));
}

#[test]
fn difficulty_speed_caps() {
    assert_eq!(Difficulty::Easy.speed(), 2);
    assert_eq!(Difficulty::Difficult.speed(), 4);
    assert_eq!(Difficulty::Impossible.speed(), 6);
    assert_eq!(Difficulty::default(), Difficulty::Easy);
}

#[test]
fn near_edge_hit_still_turns_back() {
    assert_eq!(paddle_collision(49, 0, Vec2::new(10, 0)), Vec2::new(-4, 9));
    assert_eq!(paddle_collision(-49, 0, Vec2::new(-10, 0)), Vec2::new(4, -9));
    let r = paddle_collision(49, 0, Vec2::new(1, 0));
    assert!(r.x < 0);
}
