use pong::controls::{ControlMap, GameAction, Key};
use pong::difficulty::Difficulty;
use pong::menu::{ChangeStateMenuAction, MenuAction, MenuComponent, MenuItem, QuitMenuAction, StateTarget};
use pong::states::GameState;
use pong::session::Session;
use pong::states::PausedState;
use pong::ui::{binding_text, controls_menu, current_menu, main_menu, paused_menu, settings_menu};

fn button(c: &MenuComponent) -> (&str, MenuAction) {
    match c {
        MenuComponent::Button(b) => (b.label.as_str(), b.action),
        _ => panic!("not a button"),
    }
}

#[test]
fn main_menu_lists_start_settings_quit() {
    let m = main_menu();
    assert_eq!(m.heading, "Pong!");
    assert_eq!(m.components.len(), 3);
    assert_eq!(button(&m.components[0]), ("Start Game", ChangeStateMenuAction::new(StateTarget::Game(GameState::Playing))));
    assert_eq!(button(&m.components[1]).0, "Settings");
    assert_eq!(button(&m.components[2]), ("Quit Game", MenuAction::Quit(QuitMenuAction)));
}

#[test]
fn settings_menu_marks_current_difficulty() {
    let m = settings_menu(Difficulty::Difficult);
    assert_eq!(m.heading, "Settings");
    match &m.components[0] {
        MenuComponent::Horizontal(row) => {
            let picked: Vec<bool> = row.components.iter().filter_map(|c| match c {
                MenuItem::Selectable(s) => Some(s.selected),
                _ => None,
            }).collect();
            assert_eq!(picked, vec![false, true, false]);
        }
        _ => panic!("first line is the difficulty row"),
    }
    assert_eq!(button(&m.components[2]).0, "Back");
}

#[test]
fn controls_menu_shows_bindings() {
    let mut map = ControlMap::new();
    map.insert(GameAction::Up, Key { code: 87 });
    map.insert(GameAction::Up, Key { code: 38 });
    let m = controls_menu(&map);
    assert_eq!(m.components.len(), 4);
    let labels: Vec<String> = m.components[..3].iter().map(|c| match c {
        MenuComponent::Horizontal(row) => match &row.components[1] {
            MenuItem::Button(b) => b.label.clone(),
            _ => panic!("second item is a button"),
        },
        _ => panic!("binding rows come first"),
    }).collect();
    assert_eq!(labels, vec!["87, 38".to_string(), "[Not Set]".to_string(), "[Not Set]".to_string()]);
    assert_eq!(button(&m.components[3]).0, "Back");
}

#[test]
fn binding_text_joins_codes() {
    assert_eq!(binding_text(&vec![]), "[Not Set]");
    assert_eq!(binding_text(&vec![Key { code: 5 }]), "5");
    assert_eq!(binding_text(&vec![Key { code: 5 }, Key { code: 120 }, Key { code: 0 }]), "5, 120, 0");
}

#[test]
fn paused_menu_offers_resume_and_main_menu() {
    let m = paused_menu();
    assert_eq!(m.heading, "Paused");
    assert_eq!(button(&m.components[0]).0, "Resume");
    assert_eq!(button(&m.components[1]), ("Main Menu", ChangeStateMenuAction::new(StateTarget::Game(GameState::Main))));
}

#[test]
fn current_menu_follows_the_screen() {
    let mut s = Session::new(ControlMap::new());
    assert_eq!(current_menu(&s).unwrap().heading, "Pong!");
    s.request_mode(GameState::Controls);
    s.apply_transitions(640, 480);
    assert_eq!(current_menu(&s).unwrap().heading, "Controls");
    s.request_mode(GameState::Playing);
    s.apply_transitions(640, 480);
    assert!(current_menu(&s).is_none());
    s.request_paused(PausedState::Paused);
    s.apply_transitions(640, 480);
    assert_eq!(current_menu(&s).unwrap().heading, "Paused");
}
