//! A two-player Pong session: the mode graph of its menus, the score, the
//! computer opponent's difficulty, the control bindings and the ball and
//! paddle rules of a play session, modelled on integer coordinates.

pub mod difficulty;
pub mod geometry;
pub mod constants;
pub mod ball;
pub mod movement;
pub mod text;
pub mod score;
pub mod controls;
pub mod states;
pub mod pong;
pub mod menu;
pub mod session;
pub mod ui;
