use vstd::prelude::*;

use crate::controls::{listen_for_keys, ControlMap, ControlRemapping, GameAction, Key};
use crate::difficulty::Difficulty;
use crate::geometry::Vec2;
use crate::menu::{MenuAction, ResourceValue, StateTarget};
use crate::movement::{handle_computer_movement, handle_player_input};
use crate::pong::{
    board_spec, initial_velocity, points_of, reset, resolve_collisions, spawn_game_world,
    velocity_after, ball_collided, CollisionEvent, Pong, Snapshot, SpeedUpPolicy,
};
use crate::score::{add_points, score_after, score_text, Score};
use crate::states::{GameState, PausedState};

verus! {

/// Everything one run of the game keeps: the screen and pause state with the
/// changes asked for at the next tick, the settings, the bindings, the score
/// and, while playing, the play session's entities.
pub struct Session {
    pub mode: GameState,
    pub paused: PausedState,
    pub next_mode: Option<GameState>,
    pub next_paused: Option<PausedState>,
    pub difficulty: Difficulty,
    pub score: Score,
    pub controls: ControlMap,
    pub remapping: Option<ControlRemapping>,
    pub pong: Option<Pong>,
    pub next_ball_id: u64,
    pub speed_up: SpeedUpPolicy,
    pub quit: bool,
}

/// The screen after the tick barrier.
pub open spec fn mode_after_barrier(s: Session) -> GameState {
    match s.next_mode {
        Some(m) => m,
        None => s.mode,
    }
}

/// Whether the tick barrier starts a play session.
pub open spec fn enters_playing(s: Session) -> bool {
    s.next_mode == Some(GameState::Playing) && s.mode != GameState::Playing
}

/// The pause state after the tick barrier: a new play session always runs.
pub open spec fn paused_after_barrier(s: Session) -> PausedState {
    if enters_playing(s) {
        PausedState::Playing
    } else {
        match s.next_paused {
            Some(p) => p,
            None => s.paused,
        }
    }
}

/// The pause change that the pause toggle asks for, given whether the Menu
/// action went down this tick.
pub open spec fn toggled_request(s: Session, edge: bool) -> Option<PausedState> {
    if s.mode == GameState::Playing && edge {
        Some(s.paused.flipped())
    } else {
        s.next_paused
    }
}

impl Session {
    /// The invariant: the rebind holder exists exactly on the controls screen,
    /// the play session exactly while playing, and it has exactly one ball.
    pub open spec fn wf(self) -> bool {
        &&& self.controls.wf()
        &&& (self.remapping is Some <==> self.mode == GameState::Controls)
        &&& (self.pong is Some <==> self.mode == GameState::Playing)
        &&& (self.pong matches Some(p) ==> p.balls@.len() == 1 && p.balls@[0].id
            < self.next_ball_id)
    }

    /// Whether the simulation runs this tick.
    pub open spec fn running(self) -> bool {
        self.mode == GameState::Playing && self.paused == PausedState::Playing
    }

    /// A session on the main menu with the bindings `controls`.
    pub fn new(controls: ControlMap) -> (r: Session)
        requires
            controls.wf(),
        ensures
            r.wf(),
            r.mode == GameState::Main,
            r.paused == PausedState::Playing,
            r.next_mode is None,
            r.next_paused is None,
            r.difficulty == Difficulty::Easy,
            r.score == (Score { player1: 0, player2: 0 }),
            r.controls == controls,
            r.speed_up == SpeedUpPolicy::AllCollisions,
            r.quit == false,
    {
        Session {
            mode: GameState::Main,
            paused: PausedState::Playing,
            next_mode: None,
            next_paused: None,
            difficulty: Difficulty::Easy,
            score: Score::new(),
            controls,
            remapping: None,
            pong: None,
            next_ball_id: 0,
            speed_up: SpeedUpPolicy::AllCollisions,
            quit: false,
        }
    }

    /// Asks for screen `next` at the next tick barrier.
    pub fn request_mode(&mut self, next: GameState)
        ensures
            *final(self) == (Session { next_mode: Some(next), ..*old(self) }),
    {
        self.next_mode = Some(next);
    }

    /// Asks for pause state `next` at the next tick barrier.
    pub fn request_paused(&mut self, next: PausedState)
        ensures
            *final(self) == (Session { next_paused: Some(next), ..*old(self) }),
    {
        self.next_paused = Some(next);
    }

    /// The barrier between ticks: applies the changes asked for. Leaving the
    /// play screen drops the play session; entering it resets the score, lets
    /// play run and builds a session for a viewport of `width` by `height`.
    /// Leaving the controls screen drops any rebind in progress; entering it
    /// starts with none. Each ball takes a fresh number, so the counter must
    /// have room for one more.
    pub fn apply_transitions(&mut self, width: u32, height: u32)
        requires
            old(self).wf(),
            old(self).next_ball_id < u64::MAX,
        ensures
            final(self).wf(),
            final(self).mode == mode_after_barrier(*old(self)),
            final(self).paused == paused_after_barrier(*old(self)),
            final(self).next_mode is None,
            final(self).next_paused is None,
            final(self).difficulty == old(self).difficulty,
            final(self).controls == old(self).controls,
            final(self).speed_up == old(self).speed_up,
            final(self).quit == old(self).quit,
            enters_playing(*old(self)) ==> {
                &&& final(self).score == (Score { player1: 0, player2: 0 })
                &&& final(self).pong matches Some(p) && p.board == board_spec(
                    width as int,
                    height as int,
                ) && p.balls@[0].velocity == initial_velocity() && p.score_text@ == "0 - 0"@
            },
            !enters_playing(*old(self)) ==> final(self).score == old(self).score,
            final(self).mode == old(self).mode ==> final(self).pong == old(self).pong
                && final(self).remapping == old(self).remapping,
            final(self).mode == GameState::Controls && old(self).mode != GameState::Controls
                ==> final(self).remapping == Some(ControlRemapping { awaiting: None }),
    {
        let entering = match self.next_mode {
            Some(m) => m == GameState::Playing && self.mode != GameState::Playing,
            None => false,
        };
        if let Some(m) = self.next_mode {
            if m != self.mode {
                if self.mode == GameState::Playing {
                    self.pong = None;
                }
                if self.mode == GameState::Controls {
                    self.remapping = None;
                }
                if m == GameState::Controls {
                    self.remapping = Some(ControlRemapping::new());
                }
                if m == GameState::Playing {
                    self.score.reset();
                    self.pong = Some(spawn_game_world(width, height, self.next_ball_id));
                    self.next_ball_id = self.next_ball_id + 1;
                }
                self.mode = m;
            }
        }
        if entering {
            self.paused = PausedState::Playing;
        } else if let Some(p) = self.next_paused {
            self.paused = p;
        }
        self.next_mode = None;
        self.next_paused = None;
    }

    /// The pause toggle, which runs while playing, paused or not: when the Menu
    /// action went down between the held keys `before` and `now`, asks for the
    /// other pause state.
    pub fn toggle_pause_game(&mut self, now: &Vec<Key>, before: &Vec<Key>)
        ensures
            *final(self) == (Session {
                next_paused: toggled_request(
                    *old(self),
                    menu_edge(old(self).controls, now@, before@),
                ),
                ..*old(self)
            }),
    {
        if self.mode == GameState::Playing {
            if self.controls.just_pressed(GameAction::Menu, now, before) {
                self.next_paused = Some(self.paused.flip());
            }
        }
    }

    /// Carries out a click on a menu control.
    pub fn execute(&mut self, action: &MenuAction)
        requires
            old(self).wf(),
        ensures
            final(self).wf(),
            match *action {
                MenuAction::ChangeState(c) => match c.next_state {
                    StateTarget::Game(m) => *final(self) == (Session {
                        next_mode: Some(m),
                        ..*old(self)
                    }),
                    StateTarget::Paused(p) => *final(self) == (Session {
                        next_paused: Some(p),
                        ..*old(self)
                    }),
                },
                MenuAction::UpdateResource(u) => match u.resource {
                    ResourceValue::Difficulty(d) => *final(self) == (Session {
                        difficulty: d,
                        ..*old(self)
                    }),
                    ResourceValue::Remapping(r) => *final(self) == (Session {
                        remapping: if old(self).mode == GameState::Controls {
                            Some(r)
                        } else {
                            None
                        },
                        ..*old(self)
                    }),
                },
                MenuAction::Quit(_) => *final(self) == (Session { quit: true, ..*old(self) }),
            },
    {
        match *action {
            MenuAction::ChangeState(c) => match c.next_state {
                StateTarget::Game(m) => self.request_mode(m),
                StateTarget::Paused(p) => self.request_paused(p),
            },
            MenuAction::UpdateResource(u) => match u.resource {
                ResourceValue::Difficulty(d) => {
                    self.difficulty = d;
                },
                ResourceValue::Remapping(r) => {
                    if self.mode == GameState::Controls {
                        self.remapping = Some(r);
                    }
                },
            },
            MenuAction::Quit(_) => {
                self.quit = true;
            },
        }
    }

    /// On the controls screen, commits a rebind in progress to the first of the
    /// keys `pressed` this tick.
    pub fn listen_for_keys(&mut self, pressed: &Vec<Key>)
        requires
            old(self).wf(),
        ensures
            final(self).wf(),
            final(self).mode == old(self).mode,
            final(self).score == old(self).score,
            match old(self).remapping {
                Some(ControlRemapping { awaiting: Some(a) }) if pressed@.len() > 0 => {
                    &&& crate::controls::rebound(old(self).controls, final(self).controls, a, pressed@[0])
                    &&& final(self).remapping == Some(ControlRemapping { awaiting: None })
                },
                _ => *final(self) == *old(self),
            },
    {
        if let Some(r) = self.remapping {
            let mut r = r;
            listen_for_keys(&mut r, &mut self.controls, pressed);
            self.remapping = Some(r);
        }
    }

    /// The paddles' translations for one fixed tick, while the simulation runs:
    /// the human paddle follows the held Up and Down actions, the computer
    /// paddle heads for the ball.
    pub fn move_players(&self, held: &Vec<Key>, snap: &Snapshot) -> (r: Option<(Vec2, Vec2)>)
        ensures
            !self.running() <==> r is None,
            r matches Some((player, computer)) ==> {
                &&& player.x == 0
                &&& player.y == crate::movement::input_direction(
                    self.controls.spec_pressed(GameAction::Up, held@),
                    self.controls.spec_pressed(GameAction::Down, held@),
                ) * crate::constants::PADDLE_SPEED
                &&& computer.x == 0
                &&& computer.y == crate::movement::clamp_sym(
                    snap.ball_position.y - snap.computer.y,
                    self.difficulty.spec_speed(),
                )
            },
    {
        if self.mode == GameState::Playing && self.paused == PausedState::Playing {
            let up = self.controls.pressed(GameAction::Up, held);
            let down = self.controls.pressed(GameAction::Down, held);
            let player = handle_player_input(up, down);
            let computer = handle_computer_movement(snap.computer, snap.ball_position, self.difficulty);
            Some((player, computer))
        } else {
            None
        }
    }

    /// One tick of play while the simulation runs: the contacts `events` act on
    /// the ball as the physics left it in `snap`; each entry into a scoring
    /// zone counts a point; after a point the ball is dropped and a new one
    /// starts from the centre with the initial velocity, so the session keeps
    /// exactly one ball. Returns the scoreboard's new text when the score changed.
    /// The new ball takes a fresh number, so the counter must have room for one more.
    pub fn update(&mut self, events: &Vec<CollisionEvent>, snap: &Snapshot) -> (r: Option<String>)
        requires
            old(self).wf(),
            old(self).next_ball_id < u64::MAX,
        ensures
            final(self).wf(),
            final(self).mode == old(self).mode,
            final(self).paused == old(self).paused,
            final(self).controls == old(self).controls,
            final(self).difficulty == old(self).difficulty,
            final(self).speed_up == old(self).speed_up,
            final(self).quit == old(self).quit,
            !old(self).running() ==> *final(self) == *old(self) && r is None,
            old(self).running() ==> {
                let points = points_of(events@);
                let score = score_after(old(self).score, points);
                &&& final(self).score == score
                &&& old(self).score.le(final(self).score)
                &&& (r is Some <==> score != old(self).score)
                &&& (r matches Some(t) ==> t@ == score_text(
                    score.player1 as nat,
                    score.player2 as nat,
                ))
                &&& final(self).pong matches Some(p) && {
                    let ball = p.balls@[0];
                    &&& (r matches Some(t) ==> p.score_text@ == t@)
                    &&& (r is None ==> p.score_text == old(self).pong->Some_0.score_text)
                    &&& (if points.len() > 0 {
                        &&& ball.id == old(self).next_ball_id
                        &&& ball.id != old(self).pong->Some_0.balls@[0].id
                        &&& ball.position == (Vec2 { x: 0, y: 0 })
                        &&& ball.velocity == initial_velocity()
                    } else {
                        &&& ball.id == old(self).pong->Some_0.balls@[0].id
                        &&& ball.position == snap.ball_position
                        &&& ball.velocity == velocity_after(
                            snap.ball_velocity,
                            *snap,
                            events@,
                            old(self).speed_up,
                        )
                        &&& old(self).speed_up == SpeedUpPolicy::AllCollisions
                            && ball_collided(events@) ==> ball.velocity.len2()
                            <= crate::constants::MAX_BALL_SPEED * crate::constants::MAX_BALL_SPEED
                        &&& ball.velocity == snap.ball_velocity || ball.velocity.len2()
                            <= crate::constants::MAX_BALL_SPEED * crate::constants::MAX_BALL_SPEED
                    })
                }
            },
    {
        if !(self.mode == GameState::Playing && self.paused == PausedState::Playing) {
            return None;
        }
        let (v, points) = resolve_collisions(snap.ball_velocity, snap, events, self.speed_up);
        let before = self.score;
        add_points(&mut self.score, &points);
        proof {
            crate::score::lemma_score_monotone(before, points@, 0, points@.len() as int);
        }
        let changed = !(self.score.player1 == before.player1 && self.score.player2 == before.player2);
        let id = self.next_ball_id;
        let scored = points.len() > 0;
        if scored {
            self.next_ball_id = self.next_ball_id + 1;
        }
        let text = if changed {
            Some(self.score.display_text())
        } else {
            None
        };
        match &mut self.pong {
            Some(p) => {
                reset(p, &points, id);
                if !scored {
                    let old_id = p.balls[0].id;
                    p.balls.set(0, crate::pong::Ball { id: old_id, position: snap.ball_position, velocity: v });
                }
                if let Some(t) = &text {
                    p.score_text = t.clone();
                }
            },
            None => {},
        }
        text
    }
}

/// While playing, a session holds exactly one ball: the one of the play
/// session that every operation keeps or replaces, numbered below every
/// number still to be given, so that a replacement is always a new ball.
pub proof fn lemma_one_ball(s: Session)
    requires
        s.wf(),
        s.mode == GameState::Playing,
    ensures
        s.pong matches Some(p) && p.balls@.len() == 1 && p.balls@[0].id < s.next_ball_id,
{
}

/// Right after the barrier that enters play from any other screen, the score
/// is nil and play runs.
pub proof fn lemma_fresh_session(s: Session)
    requires
        s.next_mode == Some(GameState::Playing),
        s.mode != GameState::Playing,
    ensures
        enters_playing(s),
        mode_after_barrier(s) == GameState::Playing,
        paused_after_barrier(s) == PausedState::Playing,
{
}

/// While playing with no change pending, the pause toggle and the barrier
/// after it flip the pause state exactly when the Menu action went down in
/// this tick: once per press, and never again while the key stays held.
pub proof fn lemma_toggle_once(s: Session, now: Seq<Key>, before: Seq<Key>)
    requires
        s.mode == GameState::Playing,
        s.next_mode is None,
        s.next_paused is None,
    ensures
        ({
            let edge = menu_edge(s.controls, now, before);
            let t = Session { next_paused: toggled_request(s, edge), ..s };
            &&& paused_after_barrier(t) == (if edge {
                s.paused.flipped()
            } else {
                s.paused
            })
            &&& s.controls.spec_pressed(GameAction::Menu, before) ==> paused_after_barrier(t)
                == s.paused
            &&& mode_after_barrier(t) == GameState::Playing
        }),
{
}

/// Whether the Menu action went down between the held keys `before` and `now`.
pub open spec fn menu_edge(map: ControlMap, now: Seq<Key>, before: Seq<Key>) -> bool {
    map.spec_pressed(GameAction::Menu, now) && !map.spec_pressed(GameAction::Menu, before)
}

/// The number of ticks of `held` (the keys held, tick by tick) in which the
/// Menu action went down.
pub open spec fn menu_edges(map: ControlMap, held: Seq<Seq<Key>>) -> nat
    decreases held.len(),
{
    if held.len() < 2 {
        0
    } else {
        menu_edges(map, held.drop_last()) + if menu_edge(
            map,
            held.last(),
            held[held.len() - 2],
        ) {
            1nat
        } else {
            0nat
        }
    }
}

/// The pause state of a session in play after the ticks of `held`, each made
/// of the pause toggle and the barrier after it.
pub open spec fn pause_after_ticks(s: Session, held: Seq<Seq<Key>>) -> PausedState
    decreases held.len(),
{
    if held.len() < 2 {
        s.paused
    } else {
        let t = Session {
            paused: pause_after_ticks(s, held.drop_last()),
            next_mode: None,
            next_paused: None,
            ..s
        };
        let edge = menu_edge(s.controls, held.last(), held[held.len() - 2]);
        paused_after_barrier(Session { next_paused: toggled_request(t, edge), ..t })
    }
}

/// Over any run of ticks in play, the pause state flips once for each press
/// of the Menu action: it ends flipped exactly when the presses are odd.
pub proof fn lemma_pause_parity(s: Session, held: Seq<Seq<Key>>)
    requires
        s.mode == GameState::Playing,
    ensures
        pause_after_ticks(s, held) == (if menu_edges(s.controls, held) % 2 == 1 {
            s.paused.flipped()
        } else {
            s.paused
        }),
    decreases held.len(),
{
    if held.len() >= 2 {
        lemma_pause_parity(s, held.drop_last());
    }
}

/// A Menu key held down over a run of ticks toggles nothing in it.
pub proof fn lemma_held_key_no_toggle(s: Session, held: Seq<Seq<Key>>)
    requires
        s.mode == GameState::Playing,
        forall|i: int| 0 <= i < held.len() ==> s.controls.spec_pressed(GameAction::Menu, #[trigger] held[i]),
    ensures
        menu_edges(s.controls, held) == 0,
        pause_after_ticks(s, held) == s.paused,
    decreases held.len(),
{
    if held.len() >= 2 {
        let prefix = held.drop_last();
        assert forall|i: int| 0 <= i < prefix.len() implies s.controls.spec_pressed(
            GameAction::Menu,
            #[trigger] prefix[i],
        ) by {
            assert(prefix[i] == held[i]);
        }
        lemma_held_key_no_toggle(s, prefix);
        assert(s.controls.spec_pressed(GameAction::Menu, held[held.len() - 2]));
    }
    lemma_pause_parity(s, held);
}

} // verus!
