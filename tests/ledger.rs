use pong::controls::{listen_for_keys, ControlMap, ControlRemapping, GameAction, Key};
use pong::score::{add_points, Score, ScoreField};

fn key(code: u32) -> Key {
    Key { code }
}

#[test]
fn left_zone_scores_for_right_player() {
    let mut s = Score { player1: 2, player2: 1 };
    s.add_point(&ScoreField::Left);
    assert_eq!(s, Score { player1: 2, player2: 2 });
    s.add_point(&ScoreField::Right);
    assert_eq!(s, Score { player1: 3, player2: 2 });
}

#[test]
fn score_counter_holds_at_largest_value() {
    let mut s = Score { player1: u32::MAX, player2: 0 };
    s.add_point(&ScoreField::Right);
    assert_eq!(s.player1, u32::MAX);
    assert_eq!(s.display_text(), "4294967295 - 0");
}

#[test]
fn score_text_and_reset() {
    let mut s = Score::default();
    assert_eq!(s.display_text(), "0 - 0");
    add_points(&mut s, &vec![ScoreField::Left, ScoreField::Left, ScoreField::Right]);
    assert_eq!(s.display_text(), "1 - 2");
    s.player1 = 10;
    assert_eq!(s.display_text(), "10 - 2");
    s.reset();
    assert_eq!(s, Score::new());
}

#[test]
fn score_never_decreases_along_events() {
    let events = vec![ScoreField::Right, ScoreField::Left, ScoreField::Left, ScoreField::Right];
    let mut s = Score::new();
    for f in &events {
        let before = s;
        s.add_point(f);
        assert!(s.player1 >= before.player1 && s.player2 >= before.player2);
    }
    assert_eq!(s, Score { player1: 2, player2: 2 });
}

#[test]
fn empty_binding_is_never_held() {
    let m = ControlMap::new();
    assert!(m.get(GameAction::Up).is_none());
    assert!(!m.pressed(GameAction::Up, &vec![key(87)]));
}

#[test]
fn insert_keeps_keys_unique_and_clear_empties() {
    let mut m = ControlMap::new();
    m.insert(GameAction::Up, key(87));
    m.insert(GameAction::Up, key(38));
    m.insert(GameAction::Up, key(87));
    assert_eq!(m.get(GameAction::Up), Some(vec![key(87), key(38)]));
    assert!(m.pressed(GameAction::Up, &vec![key(1), key(38)]));
    m.clear_action(GameAction::Up);
    assert!(m.get(GameAction::Up).is_none());
}

#[test]
fn just_pressed_only_on_the_edge() {
    let mut m = ControlMap::new();
    m.insert(GameAction::Menu, key(27));
    assert!(m.just_pressed(GameAction::Menu, &vec![key(27)], &vec![]));
    assert!(!m.just_pressed(GameAction::Menu, &vec![key(27)], &vec![key(27)]));
    assert!(!m.just_pressed(GameAction::Menu, &vec![], &vec![key(27)]));
}

#[test]
fn remap_binds_exactly_the_pressed_key() {
    let mut m = ControlMap::new();
    m.insert(GameAction::Up, key(87));
    m.insert(GameAction::Up, key(38));
    m.insert(GameAction::Down, key(83));
    let mut r = ControlRemapping::start_remapping(GameAction::Up);
    listen_for_keys(&mut r, &mut m, &vec![key(83), key(9)]);
    assert_eq!(m.get(GameAction::Up), Some(vec![key(83)]));
    assert_eq!(m.get(GameAction::Down), Some(vec![key(83)]));
    assert_eq!(r, ControlRemapping::default());
    assert!(m.pressed(GameAction::Up, &vec![key(83)]));
    assert!(!m.pressed(GameAction::Up, &vec![key(87)]));
}

#[test]
fn remap_waits_for_a_key_and_idle_ignores_keys() {
    let mut m = ControlMap::new();
    m.insert(GameAction::Menu, key(27));
    let mut r = ControlRemapping::start_remapping(GameAction::Menu);
    listen_for_keys(&mut r, &mut m, &vec![]);
    assert_eq!(r.awaiting, Some(GameAction::Menu));
    assert_eq!(m.get(GameAction::Menu), Some(vec![key(27)]));
    let mut idle = ControlRemapping::new();
    listen_for_keys(&mut idle, &mut m, &vec![key(5)]);
    assert_eq!(m.get(GameAction::Menu), Some(vec![key(27)]));
}
