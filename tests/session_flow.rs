use pong::controls::{ControlMap, ControlRemapping, GameAction, Key};
use pong::difficulty::Difficulty;
use pong::geometry::Vec2;
use pong::menu::{ChangeStateMenuAction, MenuAction, QuitMenuAction, ResourceValue, StateTarget, UpdateResourceMenuAction};
use pong::pong::{ball_body, create_bodies, create_board, reset, spawn_ball, spawn_game_world, Body, CollisionEvent, CombineRule, Motion, Paddle, Shape, Snapshot};
use pong::score::{Score, ScoreField};
use pong::session::Session;
use pong::states::{GameState, PausedSet, PausedState, PlayingSet};

const ESC: Key = Key { code: 27 };
const W: Key = Key { code: 87 };
const S: Key = Key { code: 83 };

fn bindings() -> ControlMap {
    let mut m = ControlMap::new();
    m.insert(GameAction::Up, W);
    m.insert(GameAction::Down, S);
    m.insert(GameAction::Menu, ESC);
    m
}

fn playing() -> Session {
    let mut s = Session::new(bindings());
    s.request_mode(GameState::Playing);
    s.apply_transitions(800, 600);
    s
}

fn snapshot(ball: Vec2, velocity: Vec2) -> Snapshot {
    Snapshot {
        ball_position: ball,
        ball_velocity: velocity,
        player: Vec2::new(-360, -50),
        computer: Vec2::new(360, -50),
    }
}

fn ball_count(s: &Session) -> usize {
    s.pong.as_ref().map(|p| p.balls.len()).unwrap_or(0)
}

#[test]
fn board_layout_from_viewport() {
    let b = create_board(800, 600);
    assert_eq!(b.top_wall_y, 190);
    assert_eq!(b.bottom_wall_y, -290);
    assert_eq!(b.left_sensor_x, -390);
    assert_eq!(b.right_sensor_x, 390);
    assert_eq!(b.sensor_y, -50);
    assert_eq!(b.sensor_height, 490);
    assert_eq!(b.player_x, -360);
    assert_eq!(b.computer_x, 360);
    assert_eq!(b.paddle_y, -50);
    assert_eq!(b.score_y, 250);
    let w = spawn_game_world(800, 600, 7);
    assert_eq!(w.balls.len(), 1);
    assert_eq!(w.balls[0].id, 7);
    assert_eq!(w.balls[0].velocity, Vec2::new(200, 100));
    assert_eq!(w.score_text, "0 - 0");
}

#[test]
fn new_session_starts_on_main_menu() {
    let s = Session::new(bindings());
    assert_eq!(s.mode, GameState::Main);
    assert_eq!(s.difficulty, Difficulty::Easy);
    assert!(s.pong.is_none());
    assert!(s.remapping.is_none());
}

#[test]
fn mode_change_waits_for_the_barrier() {
    let mut s = Session::new(bindings());
    s.request_mode(GameState::Settings);
    assert_eq!(s.mode, GameState::Main);
    s.apply_transitions(800, 600);
    assert_eq!(s.mode, GameState::Settings);
    assert!(s.next_mode.is_none());
}

#[test]
fn entering_play_resets_score_and_spawns_one_ball() {
    let mut s = Session::new(bindings());
    s.score = Score { player1: 4, player2: 3 };
    s.paused = PausedState::Paused;
    s.request_mode(GameState::Playing);
    s.apply_transitions(800, 600);
    assert_eq!(s.mode, GameState::Playing);
    assert_eq!(s.paused, PausedState::Playing);
    assert_eq!(s.score, Score::new());
    assert_eq!(ball_count(&s), 1);
    assert_eq!(s.pong.as_ref().unwrap().balls[0].velocity, Vec2::new(200, 100));
}

#[test]
fn leaving_play_drops_the_session_even_when_paused() {
    let mut s = playing();
    s.request_paused(PausedState::Paused);
    s.apply_transitions(800, 600);
    assert_eq!(s.paused, PausedState::Paused);
    s.request_mode(GameState::Main);
    s.apply_transitions(800, 600);
    assert_eq!(s.mode, GameState::Main);
    assert!(s.pong.is_none());
}

#[test]
fn resume_from_pause_keeps_score() {
    let mut s = playing();
    s.score = Score { player1: 1, player2: 0 };
    s.request_paused(PausedState::Paused);
    s.apply_transitions(800, 600);
    s.request_paused(PausedState::Playing);
    s.apply_transitions(800, 600);
    assert_eq!(s.score, Score { player1: 1, player2: 0 });
    assert_eq!(s.paused, PausedState::Playing);
}

#[test]
fn pause_toggles_once_per_press() {
    let mut s = playing();
    s.toggle_pause_game(&vec![ESC], &vec![]);
    s.apply_transitions(800, 600);
    assert_eq!(s.paused, PausedState::Paused);
    s.toggle_pause_game(&vec![ESC], &vec![ESC]);
    s.apply_transitions(800, 600);
    assert_eq!(s.paused, PausedState::Paused);
    s.toggle_pause_game(&vec![], &vec![ESC]);
    s.apply_transitions(800, 600);
    assert_eq!(s.paused, PausedState::Paused);
    s.toggle_pause_game(&vec![ESC], &vec![]);
    s.apply_transitions(800, 600);
    assert_eq!(s.paused, PausedState::Playing);
}

#[test]
fn pause_toggle_ignored_off_the_play_screen() {
    let mut s = Session::new(bindings());
    s.toggle_pause_game(&vec![ESC], &vec![]);
    assert!(s.next_paused.is_none());
}

#[test]
fn gating_of_play_and_pause_sets() {
    assert!(PlayingSet.runs_in(GameState::Playing, PausedState::Playing));
    assert!(!PlayingSet.runs_in(GameState::Playing, PausedState::Paused));
    assert!(PausedSet.runs_in(GameState::Playing, PausedState::Paused));
    assert!(!PausedSet.runs_in(GameState::Main, PausedState::Paused));
}

#[test]
fn left_zone_point_respawns_ball_in_same_tick() {
    let mut s = playing();
    s.score = Score { player1: 2, player2: 1 };
    let old_id = s.pong.as_ref().unwrap().balls[0].id;
    let events = vec![CollisionEvent::Started(Body::Ball, Body::Sensor(ScoreField::Left))];
    let text = s.update(&events, &snapshot(Vec2::new(-395, 10), Vec2::new(-300, 40)));
    assert_eq!(s.score, Score { player1: 2, player2: 2 });
    assert_eq!(text, Some("2 - 2".to_string()));
    assert_eq!(ball_count(&s), 1);
    let ball = s.pong.as_ref().unwrap().balls[0];
    assert_ne!(ball.id, old_id);
    assert_eq!(ball.velocity, Vec2::new(200, 100));
    assert_eq!(ball.position, Vec2::new(0, 0));
    assert_eq!(s.pong.as_ref().unwrap().score_text, "2 - 2");
}

#[test]
fn sensor_listed_first_still_scores() {
    let mut s = playing();
    let events = vec![CollisionEvent::Started(Body::Sensor(ScoreField::Right), Body::Ball)];
    s.update(&events, &snapshot(Vec2::new(395, 10), Vec2::new(300, 40)));
    assert_eq!(s.score, Score { player1: 1, player2: 0 });
    assert_eq!(ball_count(&s), 1);
}

#[test]
fn wall_bounce_speeds_up_without_scoring() {
    let mut s = playing();
    let events = vec![
        CollisionEvent::Started(Body::Ball, Body::Wall),
        CollisionEvent::Stopped(Body::Ball, Body::Wall),
    ];
    let text = s.update(&events, &snapshot(Vec2::new(5, 180), Vec2::new(200, -100)));
    assert_eq!(text, None);
    assert_eq!(s.score, Score::new());
    let ball = s.pong.as_ref().unwrap().balls[0];
    assert_eq!(ball.velocity, Vec2::new(200, -110));
    assert_eq!(ball.position, Vec2::new(5, 180));
}

#[test]
fn paddle_hit_reflects_off_the_computer_paddle() {
    let mut s = playing();
    let events = vec![CollisionEvent::Started(Body::Paddle(Paddle::Computer), Body::Ball)];
    let text = s.update(&events, &snapshot(Vec2::new(350, -50), Vec2::new(300, 0)));
    assert_eq!(text, None);
    let ball = s.pong.as_ref().unwrap().balls[0];
    assert_eq!(ball.velocity, Vec2::new(-300, 0));
}

#[test]
fn paused_session_does_not_simulate() {
    let mut s = playing();
    s.request_paused(PausedState::Paused);
    s.apply_transitions(800, 600);
    let events = vec![CollisionEvent::Started(Body::Ball, Body::Sensor(ScoreField::Left))];
    assert_eq!(s.update(&events, &snapshot(Vec2::new(0, 0), Vec2::new(1, 1))), None);
    assert_eq!(s.score, Score::new());
    assert!(s.move_players(&vec![W], &snapshot(Vec2::new(0, 0), Vec2::new(1, 1))).is_none());
}

#[test]
fn players_move_while_running() {
    let mut s = playing();
    s.execute(&UpdateResourceMenuAction::new(ResourceValue::Difficulty(Difficulty::Difficult)));
    let snap = Snapshot {
        ball_position: Vec2::new(300, 50),
        ball_velocity: Vec2::new(200, 100),
        player: Vec2::new(-360, -50),
        computer: Vec2::new(300, 0),
    };
    let (player, computer) = s.move_players(&vec![W], &snap).unwrap();
    assert_eq!(player, Vec2::new(0, 6));
    assert_eq!(computer, Vec2::new(0, 4));
}

#[test]
fn controls_screen_remap_flow() {
    let mut s = Session::new(bindings());
    s.request_mode(GameState::Controls);
    s.apply_transitions(800, 600);
    assert_eq!(s.remapping, Some(ControlRemapping::new()));
    let k = Key { code: 38 };
    s.execute(&UpdateResourceMenuAction::new(ResourceValue::Remapping(ControlRemapping::start_remapping(GameAction::Down))));
    assert_eq!(s.remapping, Some(ControlRemapping::start_remapping(GameAction::Down)));
    s.listen_for_keys(&vec![k]);
    assert_eq!(s.controls.get(GameAction::Down), Some(vec![k]));
    assert_eq!(s.controls.get(GameAction::Up), Some(vec![W]));
    assert_eq!(s.remapping, Some(ControlRemapping::new()));
    s.request_mode(GameState::Settings);
    s.apply_transitions(800, 600);
    assert!(s.remapping.is_none());
}

#[test]
fn leaving_controls_discards_pending_rebind() {
    let mut s = Session::new(bindings());
    s.request_mode(GameState::Controls);
    s.apply_transitions(800, 600);
    s.execute(&UpdateResourceMenuAction::new(ResourceValue::Remapping(ControlRemapping::start_remapping(GameAction::Up))));
    s.request_mode(GameState::Settings);
    s.apply_transitions(800, 600);
    s.listen_for_keys(&vec![Key { code: 1 }]);
    assert_eq!(s.controls.get(GameAction::Up), Some(vec![W]));
}

#[test]
fn menu_actions_dispatch() {
    let mut s = Session::new(bindings());
    s.execute(&ChangeStateMenuAction::new(StateTarget::Game(GameState::Playing)));
    assert_eq!(s.next_mode, Some(GameState::Playing));
    s.execute(&ChangeStateMenuAction::new(StateTarget::Paused(PausedState::Paused)));
    assert_eq!(s.next_paused, Some(PausedState::Paused));
    s.execute(&MenuAction::Quit(QuitMenuAction));
    assert!(s.quit);
}

#[test]
fn paddles_only_policy_leaves_wall_bounce_alone() {
    let mut s = playing();
    s.speed_up = pong::pong::SpeedUpPolicy::PaddlesOnly;
    let events = vec![CollisionEvent::Started(Body::Wall, Body::Ball)];
    s.update(&events, &snapshot(Vec2::new(5, 180), Vec2::new(200, -100)));
    assert_eq!(s.pong.as_ref().unwrap().balls[0].velocity, Vec2::new(200, -100));
    let events = vec![CollisionEvent::Started(Body::Paddle(Paddle::Player), Body::Ball)];
    s.update(&events, &snapshot(Vec2::new(-350, -50), Vec2::new(-300, 0)));
    assert_eq!(s.pong.as_ref().unwrap().balls[0].velocity, Vec2::new(300, 0));
}

#[test]
fn board_bodies_for_the_physics() {
    let bodies = create_bodies(800, 600);
    assert_eq!(bodies.len(), 6);
    assert_eq!((bodies[0].body, bodies[0].y, bodies[0].shape), (Body::Wall, 190, Shape::Cuboid(400, 5)));
    assert_eq!((bodies[1].body, bodies[1].y, bodies[1].motion), (Body::Wall, -290, Motion::Fixed));
    assert_eq!(bodies[2].body, Body::Sensor(ScoreField::Left));
    assert_eq!((bodies[2].x, bodies[2].y, bodies[2].shape, bodies[2].sensor), (-390, -50, Shape::Cuboid(10, 245), true));
    assert_eq!((bodies[3].body, bodies[3].x), (Body::Sensor(ScoreField::Right), 390));
    assert_eq!((bodies[4].body, bodies[4].x, bodies[4].shape, bodies[4].motion), (Body::Paddle(Paddle::Player), -360, Shape::Cuboid(5, 50), Motion::Kinematic));
    assert_eq!((bodies[5].body, bodies[5].x, bodies[5].sensor), (Body::Paddle(Paddle::Computer), 360, false));
    let small = create_bodies(101, 100);
    assert_eq!(small[0].shape, Shape::Cuboid(50, 5));
    assert_eq!(small[2].shape, Shape::Cuboid(10, -5));
    assert_eq!(bodies[0].material.restitution_milli, 1000);
    assert_eq!(bodies[4].material.friction_milli, 0);
    assert!(!bodies[4].reports_contacts);
    let ball = ball_body(&spawn_ball(3));
    assert_eq!((ball.shape, ball.motion), (Shape::Circle(10), Motion::Dynamic));
    assert_eq!((ball.x, ball.y, ball.velocity), (0, 0, Vec2::new(200, 100)));
    assert_eq!((ball.angular_velocity, ball.gravity_scale), (0, 0));
    assert_eq!((ball.material.restitution_milli, ball.material.restitution_rule), (1000, CombineRule::Max));
    assert_eq!((ball.material.friction_milli, ball.material.friction_rule), (0, CombineRule::Min));
    assert!(ball.reports_contacts && !ball.sensor);
}

#[test]
fn reset_replaces_ball_only_after_a_point() {
    let mut world = spawn_game_world(800, 600, 1);
    reset(&mut world, &vec![], 2);
    assert_eq!(world.balls[0].id, 1);
    world.balls[0].velocity = Vec2::new(-5, 7);
    reset(&mut world, &vec![ScoreField::Left, ScoreField::Right], 2);
    assert_eq!(world.balls.len(), 1);
    assert_eq!(world.balls[0].id, 2);
    assert_eq!(world.balls[0].velocity, Vec2::new(200, 100));
}

#[test]
fn two_points_in_one_tick_leave_one_ball() {
    let mut s = playing();
    let events = vec![
        CollisionEvent::Started(Body::Ball, Body::Sensor(ScoreField::Left)),
        CollisionEvent::Started(Body::Ball, Body::Sensor(ScoreField::Right)),
    ];
    s.update(&events, &snapshot(Vec2::new(0, 0), Vec2::new(10, 10)));
    assert_eq!(s.score, Score { player1: 1, player2: 1 });
    assert_eq!(ball_count(&s), 1);
}
