use vstd::prelude::*;

use crate::ball::{adjust_velocity, adjusted, bounced, paddle_collision, speed_of};
use crate::constants::{
    BALL_RADIUS, INITIAL_VELOCITY_X, INITIAL_VELOCITY_Y, MAX_BALL_SPEED, PADDLE_BUFFER,
    PADDLE_HEIGHT, PADDLE_WIDTH, SPEED_INCREASE_DEN, SPEED_INCREASE_NUM, TOP_BUFFER,
    WALL_THICKNESS,
};
use crate::geometry::{trunc_div, Vec2};
use crate::score::ScoreField;

verus! {

#[derive(Clone, Copy, Debug, PartialEq, Eq, Structural)]
pub enum Paddle {
    Player,
    Computer,
}

/// A body of the play session, as the physics reports it in a contact.
#[derive(Clone, Copy, Debug, PartialEq, Eq, Structural)]
pub enum Body {
    Ball,
    Wall,
    Sensor(ScoreField),
    Paddle(Paddle),
}

/// A contact between two bodies that began or ended during the last step.
#[derive(Clone, Copy, Debug, PartialEq, Eq, Structural)]
pub enum CollisionEvent {
    Started(Body, Body),
    Stopped(Body, Body),
}

/// Which contacts speed the ball up; every contact does unless set otherwise.
#[derive(Clone, Copy, Debug, PartialEq, Eq, Structural)]
pub enum SpeedUpPolicy {
    AllCollisions,
    PaddlesOnly,
}

/// Where the physics has the moving bodies at the start of a tick.
#[derive(Clone, Copy, Debug, PartialEq, Eq, Structural)]
pub struct Snapshot {
    pub ball_position: Vec2,
    pub ball_velocity: Vec2,
    pub player: Vec2,
    pub computer: Vec2,
}

/// The one ball of a play session.
#[derive(Clone, Copy, Debug, PartialEq, Eq, Structural)]
pub struct Ball {
    pub id: u64,
    pub position: Vec2,
    pub velocity: Vec2,
}

/// Placement of the fixed bodies and the paddles on a board centred on the origin.
#[derive(Clone, Copy, Debug, PartialEq, Eq, Structural)]
pub struct Board {
    pub width: i64,
    pub top_wall_y: i64,
    pub bottom_wall_y: i64,
    pub left_sensor_x: i64,
    pub right_sensor_x: i64,
    pub sensor_y: i64,
    pub sensor_height: i64,
    pub player_x: i64,
    pub computer_x: i64,
    pub paddle_y: i64,
    pub score_y: i64,
}

/// Every entity of one play session; dropping it ends the session.
pub struct Pong {
    pub board: Board,
    pub balls: Vec<Ball>,
    pub score_text: String,
}

/// The board for a viewport of `width` by `height`: a wall at the top, below
/// the room kept for the scoreboard, and one at the bottom; a scoring zone
/// flush with each side over the playable height; a paddle inset from each side.
pub open spec fn board_spec(width: int, height: int) -> Board {
    Board {
        width: width as i64,
        top_wall_y: (height / 2 - WALL_THICKNESS - TOP_BUFFER) as i64,
        bottom_wall_y: (-(height / 2) + WALL_THICKNESS) as i64,
        left_sensor_x: (-(width / 2) + WALL_THICKNESS) as i64,
        right_sensor_x: (width / 2 - WALL_THICKNESS) as i64,
        sensor_y: (-(TOP_BUFFER / 2)) as i64,
        sensor_height: (height - TOP_BUFFER - WALL_THICKNESS) as i64,
        player_x: (-(width / 2) + PADDLE_BUFFER) as i64,
        computer_x: (width / 2 - PADDLE_BUFFER) as i64,
        paddle_y: (-(TOP_BUFFER / 2)) as i64,
        score_y: (height / 2 - 50) as i64,
    }
}

pub fn create_board(width: u32, height: u32) -> (r: Board)
    ensures
        r == board_spec(width as int, height as int),
{
    let w = width as i64;
    let h = height as i64;
    let t = WALL_THICKNESS as i64;
    let top = TOP_BUFFER as i64;
    let pb = PADDLE_BUFFER as i64;
    Board {
        width: w,
        top_wall_y: h / 2 - t - top,
        bottom_wall_y: -(h / 2) + t,
        left_sensor_x: -(w / 2) + t,
        right_sensor_x: w / 2 - t,
        sensor_y: -(top / 2),
        sensor_height: h - top - t,
        player_x: -(w / 2) + pb,
        computer_x: w / 2 - pb,
        paddle_y: -(top / 2),
        score_y: h / 2 - 50,
    }
}

/// The outline of a body: a box by its half extents, or a disc by its radius.
#[derive(Clone, Copy, Debug, PartialEq, Eq, Structural)]
pub enum Shape {
    Cuboid(i64, i64),
    Circle(i64),
}

/// How the physics moves a body: never, by the translations it is given, or
/// by its velocity.
#[derive(Clone, Copy, Debug, PartialEq, Eq, Structural)]
pub enum Motion {
    Fixed,
    Kinematic,
    Dynamic,
}

/// How the physics combines a coefficient of two bodies in contact.
#[derive(Clone, Copy, Debug, PartialEq, Eq, Structural)]
pub enum CombineRule {
    Min,
    Max,
}

/// The surface of a body, with coefficients in thousandths.
#[derive(Clone, Copy, Debug, PartialEq, Eq, Structural)]
pub struct Material {
    pub restitution_milli: u32,
    pub restitution_rule: CombineRule,
    pub friction_milli: u32,
    pub friction_rule: CombineRule,
}

/// A body handed to the physics: which body it is, where its centre stands,
/// its outline, how it moves, whether it only detects contacts, its starting
/// velocity and spin, how much gravity pulls it, its surface, and whether its
/// contacts are reported.
#[derive(Clone, Copy, Debug, PartialEq, Eq, Structural)]
pub struct BodyDef {
    pub body: Body,
    pub x: i64,
    pub y: i64,
    pub shape: Shape,
    pub motion: Motion,
    pub sensor: bool,
    pub velocity: Vec2,
    pub angular_velocity: i32,
    pub gravity_scale: i32,
    pub material: Material,
    pub reports_contacts: bool,
}

/// Perfectly elastic and frictionless, whichever body it meets: restitution
/// one, kept by the larger, and friction nil, kept by the smaller.
pub open spec fn elastic() -> Material {
    Material {
        restitution_milli: 1000,
        restitution_rule: CombineRule::Max,
        friction_milli: 0,
        friction_rule: CombineRule::Min,
    }
}

fn elastic_material() -> (r: Material)
    ensures
        r == elastic(),
{
    Material {
        restitution_milli: 1000,
        restitution_rule: CombineRule::Max,
        friction_milli: 0,
        friction_rule: CombineRule::Min,
    }
}

pub open spec fn wall_def(b: Board, y: i64) -> BodyDef {
    BodyDef {
        body: Body::Wall,
        x: 0,
        y,
        shape: Shape::Cuboid(trunc_div(b.width as int, 2) as i64, (WALL_THICKNESS / 2) as i64),
        motion: Motion::Fixed,
        sensor: false,
        velocity: Vec2 { x: 0, y: 0 },
        angular_velocity: 0,
        gravity_scale: 0,
        material: elastic(),
        reports_contacts: false,
    }
}

pub open spec fn sensor_def(b: Board, x: i64, field: ScoreField) -> BodyDef {
    BodyDef {
        body: Body::Sensor(field),
        x,
        y: b.sensor_y,
        shape: Shape::Cuboid(WALL_THICKNESS as i64, trunc_div(b.sensor_height as int, 2) as i64),
        motion: Motion::Fixed,
        sensor: true,
        velocity: Vec2 { x: 0, y: 0 },
        angular_velocity: 0,
        gravity_scale: 0,
        material: elastic(),
        reports_contacts: false,
    }
}

pub open spec fn paddle_def(b: Board, x: i64, paddle: Paddle) -> BodyDef {
    BodyDef {
        body: Body::Paddle(paddle),
        x,
        y: b.paddle_y,
        shape: Shape::Cuboid((PADDLE_WIDTH / 2) as i64, (PADDLE_HEIGHT / 2) as i64),
        motion: Motion::Kinematic,
        sensor: false,
        velocity: Vec2 { x: 0, y: 0 },
        angular_velocity: 0,
        gravity_scale: 0,
        material: elastic(),
        reports_contacts: false,
    }
}

/// The fixed bodies and the paddles of a board: the two walls, the two scoring
/// zones, and the two paddles.
pub open spec fn board_bodies(b: Board) -> Seq<BodyDef> {
    seq![
        wall_def(b, b.top_wall_y),
        wall_def(b, b.bottom_wall_y),
        sensor_def(b, b.left_sensor_x, ScoreField::Left),
        sensor_def(b, b.right_sensor_x, ScoreField::Right),
        paddle_def(b, b.player_x, Paddle::Player),
        paddle_def(b, b.computer_x, Paddle::Computer),
    ]
}

/// The ball as a body: a disc moved by its velocity, without spin or gravity,
/// elastic and frictionless, and the one body whose contacts are reported.
pub open spec fn ball_def(ball: Ball) -> BodyDef {
    BodyDef {
        body: Body::Ball,
        x: ball.position.x as i64,
        y: ball.position.y as i64,
        shape: Shape::Circle(BALL_RADIUS as i64),
        motion: Motion::Dynamic,
        sensor: false,
        velocity: ball.velocity,
        angular_velocity: 0,
        gravity_scale: 0,
        material: elastic(),
        reports_contacts: true,
    }
}

fn half(a: i64) -> (r: i64)
    requires
        a > i64::MIN,
    ensures
        r == trunc_div(a as int, 2),
{
    if a >= 0 {
        a / 2
    } else {
        -((-a) / 2)
    }
}

/// The bodies of the board for a viewport of `width` by `height`.
pub fn create_bodies(width: u32, height: u32) -> (r: Vec<BodyDef>)
    ensures
        r@ == board_bodies(board_spec(width as int, height as int)),
{
    let b = create_board(width, height);
    let wall_shape = Shape::Cuboid(half(b.width), (WALL_THICKNESS / 2) as i64);
    let sensor_shape = Shape::Cuboid(WALL_THICKNESS as i64, half(b.sensor_height));
    let paddle_shape = Shape::Cuboid((PADDLE_WIDTH / 2) as i64, (PADDLE_HEIGHT / 2) as i64);
    let material = elastic_material();
    let mut r: Vec<BodyDef> = Vec::new();
    r.push(
        BodyDef {
            body: Body::Wall,
            x: 0,
            y: b.top_wall_y,
            shape: wall_shape,
            motion: Motion::Fixed,
            sensor: false,
            velocity: Vec2 { x: 0, y: 0 },
            angular_velocity: 0,
            gravity_scale: 0,
            material,
            reports_contacts: false,
        },
    );
    r.push(
        BodyDef {
            body: Body::Wall,
            x: 0,
            y: b.bottom_wall_y,
            shape: wall_shape,
            motion: Motion::Fixed,
            sensor: false,
            velocity: Vec2 { x: 0, y: 0 },
            angular_velocity: 0,
            gravity_scale: 0,
            material,
            reports_contacts: false,
        },
    );
    r.push(
        BodyDef {
            body: Body::Sensor(ScoreField::Left),
            x: b.left_sensor_x,
            y: b.sensor_y,
            shape: sensor_shape,
            motion: Motion::Fixed,
            sensor: true,
            velocity: Vec2 { x: 0, y: 0 },
            angular_velocity: 0,
            gravity_scale: 0,
            material,
            reports_contacts: false,
        },
    );
    r.push(
        BodyDef {
            body: Body::Sensor(ScoreField::Right),
            x: b.right_sensor_x,
            y: b.sensor_y,
            shape: sensor_shape,
            motion: Motion::Fixed,
            sensor: true,
            velocity: Vec2 { x: 0, y: 0 },
            angular_velocity: 0,
            gravity_scale: 0,
            material,
            reports_contacts: false,
        },
    );
    r.push(
        BodyDef {
            body: Body::Paddle(Paddle::Player),
            x: b.player_x,
            y: b.paddle_y,
            shape: paddle_shape,
            motion: Motion::Kinematic,
            sensor: false,
            velocity: Vec2 { x: 0, y: 0 },
            angular_velocity: 0,
            gravity_scale: 0,
            material,
            reports_contacts: false,
        },
    );
    r.push(
        BodyDef {
            body: Body::Paddle(Paddle::Computer),
            x: b.computer_x,
            y: b.paddle_y,
            shape: paddle_shape,
            motion: Motion::Kinematic,
            sensor: false,
            velocity: Vec2 { x: 0, y: 0 },
            angular_velocity: 0,
            gravity_scale: 0,
            material,
            reports_contacts: false,
        },
    );
    assert(r@ =~= board_bodies(b));
    r
}

/// The body of `ball` for the physics.
pub fn ball_body(ball: &Ball) -> (r: BodyDef)
    ensures
        r == ball_def(*ball),
{
    BodyDef {
        body: Body::Ball,
        x: ball.position.x as i64,
        y: ball.position.y as i64,
        shape: Shape::Circle(BALL_RADIUS as i64),
        motion: Motion::Dynamic,
        sensor: false,
        velocity: ball.velocity,
        angular_velocity: 0,
        gravity_scale: 0,
        material: elastic_material(),
        reports_contacts: true,
    }
}

pub open spec fn initial_velocity() -> Vec2 {
    Vec2 { x: INITIAL_VELOCITY_X, y: INITIAL_VELOCITY_Y }
}

/// A new ball at the centre with the initial velocity.
pub fn spawn_ball(id: u64) -> (r: Ball)
    ensures
        r.id == id,
        r.position == (Vec2 { x: 0, y: 0 }),
        r.velocity == initial_velocity(),
        ball_def(r) == (BodyDef {
            body: Body::Ball,
            x: 0,
            y: 0,
            shape: Shape::Circle(BALL_RADIUS as i64),
            motion: Motion::Dynamic,
            sensor: false,
            velocity: Vec2 { x: INITIAL_VELOCITY_X, y: INITIAL_VELOCITY_Y },
            angular_velocity: 0,
            gravity_scale: 0,
            material: Material {
                restitution_milli: 1000,
                restitution_rule: CombineRule::Max,
                friction_milli: 0,
                friction_rule: CombineRule::Min,
            },
            reports_contacts: true,
        }),
{
    Ball {
        id,
        position: Vec2 { x: 0, y: 0 },
        velocity: Vec2 { x: INITIAL_VELOCITY_X, y: INITIAL_VELOCITY_Y },
    }
}

/// The entities of a new play session: the board, one ball, and a scoreboard
/// that reads `0 - 0`.
pub fn spawn_game_world(width: u32, height: u32, ball_id: u64) -> (r: Pong)
    ensures
        r.board == board_spec(width as int, height as int),
        r.balls@.len() == 1,
        r.balls@[0].id == ball_id,
        r.balls@[0].position == (Vec2 { x: 0, y: 0 }),
        r.balls@[0].velocity == initial_velocity(),
        r.score_text@ == "0 - 0"@,
{
    let board = create_board(width, height);
    let mut balls: Vec<Ball> = Vec::new();
    balls.push(spawn_ball(ball_id));
    let score_text = String::from_str("0 - 0");
    Pong { board, balls, score_text }
}

/// The body that the ball met in `e`, if `e` is the start of a contact of the ball.
pub open spec fn ball_partner(e: CollisionEvent) -> Option<Body> {
    match e {
        CollisionEvent::Started(a, b) => if a == Body::Ball {
            Some(b)
        } else if b == Body::Ball {
            Some(a)
        } else {
            None
        },
        CollisionEvent::Stopped(_, _) => None,
    }
}

pub open spec fn as_vec(p: (int, int)) -> Vec2 {
    Vec2 { x: p.0 as i32, y: p.1 as i32 }
}

/// Whether meeting `partner` speeds the ball up under `policy`.
pub open spec fn speeds_up(policy: SpeedUpPolicy, partner: Body) -> bool {
    policy == SpeedUpPolicy::AllCollisions || partner is Paddle
}

/// The ball's velocity after it met `partner`: sped up and clamped where the
/// policy says so, then, off a paddle, reflected.
pub open spec fn after_collision(
    v: Vec2,
    snap: Snapshot,
    partner: Body,
    policy: SpeedUpPolicy,
) -> Vec2 {
    let a = if speeds_up(policy, partner) {
        as_vec(
            adjusted(v, SPEED_INCREASE_NUM as int, SPEED_INCREASE_DEN as int, MAX_BALL_SPEED as int),
        )
    } else {
        v
    };
    match partner {
        Body::Paddle(Paddle::Player) => as_vec(
            bounced(snap.ball_position.y as int, snap.player.y as int, a),
        ),
        Body::Paddle(Paddle::Computer) => as_vec(
            bounced(snap.ball_position.y as int, snap.computer.y as int, a),
        ),
        _ => a,
    }
}

/// The ball's velocity after the contacts `events`, taken in order.
pub open spec fn velocity_after(
    v: Vec2,
    snap: Snapshot,
    events: Seq<CollisionEvent>,
    policy: SpeedUpPolicy,
) -> Vec2
    decreases events.len(),
{
    if events.len() == 0 {
        v
    } else {
        let prev = velocity_after(v, snap, events.drop_last(), policy);
        match ball_partner(events.last()) {
            Some(b) => after_collision(prev, snap, b, policy),
            None => prev,
        }
    }
}

/// The scoring zones that the ball entered in `events`, in order.
pub open spec fn points_of(events: Seq<CollisionEvent>) -> Seq<ScoreField>
    decreases events.len(),
{
    if events.len() == 0 {
        Seq::empty()
    } else {
        let prev = points_of(events.drop_last());
        match ball_partner(events.last()) {
            Some(Body::Sensor(f)) => prev.push(f),
            _ => prev,
        }
    }
}

/// Whether the ball met anything in `events`.
pub open spec fn ball_collided(events: Seq<CollisionEvent>) -> bool {
    exists|i: int| 0 <= i < events.len() && (#[trigger] ball_partner(events[i])) is Some
}

/// The ball's response to one contact.
pub fn collide(v: Vec2, snap: &Snapshot, partner: Body, policy: SpeedUpPolicy) -> (r: Vec2)
    ensures
        r == after_collision(v, *snap, partner, policy),
        speeds_up(policy, partner) ==> r.len2() <= MAX_BALL_SPEED * MAX_BALL_SPEED,
        !speeds_up(policy, partner) ==> r == v,
{
    let speed_up = match policy {
        SpeedUpPolicy::AllCollisions => true,
        SpeedUpPolicy::PaddlesOnly => match partner {
            Body::Paddle(_) => true,
            _ => false,
        },
    };
    if !speed_up {
        return v;
    }
    let a = adjust_velocity(v, SPEED_INCREASE_NUM, SPEED_INCREASE_DEN, MAX_BALL_SPEED);
    assert(a.len2() <= i32::MAX * i32::MAX) by (nonlinear_arith)
        requires
            a.len2() <= 1000 * 1000,
    ;
    match partner {
        Body::Paddle(Paddle::Player) => paddle_collision(snap.ball_position.y, snap.player.y, a),
        Body::Paddle(Paddle::Computer) => paddle_collision(
            snap.ball_position.y,
            snap.computer.y,
            a,
        ),
        _ => a,
    }
}

/// Runs the contacts of one tick against the ball: each contact of the ball
/// speeds it up, a paddle reflects it, and a scoring zone counts a point.
pub fn resolve_collisions(
    v: Vec2,
    snap: &Snapshot,
    events: &Vec<CollisionEvent>,
    policy: SpeedUpPolicy,
) -> (r: (Vec2, Vec<ScoreField>))
    ensures
        r.0 == velocity_after(v, *snap, events@, policy),
        r.1@ == points_of(events@),
        policy == SpeedUpPolicy::AllCollisions && ball_collided(events@) ==> r.0.len2()
            <= MAX_BALL_SPEED * MAX_BALL_SPEED,
        r.0 == v || r.0.len2() <= MAX_BALL_SPEED * MAX_BALL_SPEED,
{
    let mut vel = v;
    let mut points: Vec<ScoreField> = Vec::new();
    let mut i: usize = 0;
    while i < events.len()
        invariant
            i <= events@.len(),
            vel == velocity_after(v, *snap, events@.take(i as int), policy),
            points@ == points_of(events@.take(i as int)),
            policy == SpeedUpPolicy::AllCollisions && ball_collided(events@.take(i as int))
                ==> vel.len2() <= MAX_BALL_SPEED * MAX_BALL_SPEED,
            vel == v || vel.len2() <= MAX_BALL_SPEED * MAX_BALL_SPEED,
        decreases events@.len() - i,
    {
        let e = events[i];
        let ghost pre = events@.take(i as int);
        let ghost next = events@.take(i + 1);
        assert(next.drop_last() =~= pre);
        assert(next.last() == e);
        let partner: Option<Body> = match e {
            CollisionEvent::Started(a, b) => {
                if a == Body::Ball {
                    Some(b)
                } else if b == Body::Ball {
                    Some(a)
                } else {
                    None
                }
            },
            CollisionEvent::Stopped(_, _) => None,
        };
        assert(partner == ball_partner(e));
        if let Some(b) = partner {
            vel = collide(vel, snap, b, policy);
            if let Body::Sensor(f) = b {
                points.push(f);
            }
        }
        proof {
            if ball_collided(next) && partner is None {
                let j = choose|j: int| 0 <= j < next.len() && (#[trigger] ball_partner(next[j])) is Some;
                assert(j < i);
                assert(pre[j] == next[j]);
                assert(ball_collided(pre));
            }
        }
        i = i + 1;
    }
    assert(events@.take(events@.len() as int) =~= events@);
    (vel, points)
}

/// The ball after the points `points` of a tick: where there is one, the ball
/// is dropped and a single new one, numbered `id`, starts from the centre with
/// the initial velocity; otherwise the play session stays as it is.
pub fn reset(pong: &mut Pong, points: &Vec<ScoreField>, id: u64)
    ensures
        final(pong).board == old(pong).board,
        final(pong).score_text == old(pong).score_text,
        points@.len() > 0 ==> final(pong).balls@.len() == 1 && final(pong).balls@[0] == (Ball {
            id,
            position: Vec2 { x: 0, y: 0 },
            velocity: initial_velocity(),
        }),
        points@.len() == 0 ==> final(pong).balls == old(pong).balls,
{
    if points.len() > 0 {
        let mut balls: Vec<Ball> = Vec::new();
        balls.push(spawn_ball(id));
        pong.balls = balls;
    }
}

} // verus!
