use vstd::prelude::*;
use vstd::string::StringExecFns;

use crate::controls::{ControlMap, ControlRemapping, GameAction, Key};
use crate::difficulty::Difficulty;
use crate::menu::{
    ChangeStateMenuAction, MenuAction, MenuBuilder, MenuButton, MenuComponent, MenuItem, MenuLabel,
    MenuLayoutHorizontal, MenuSelectableLabel, ResourceValue, StateTarget, UpdateResourceMenuAction,
};
use crate::session::Session;
use crate::states::{GameState, PausedState};
use crate::text::{decimal, push_decimal};

verus! {

pub open spec fn to_screen(m: GameState) -> MenuAction {
    MenuAction::ChangeState(ChangeStateMenuAction { next_state: StateTarget::Game(m) })
}

pub open spec fn to_pause_state(p: PausedState) -> MenuAction {
    MenuAction::ChangeState(ChangeStateMenuAction { next_state: StateTarget::Paused(p) })
}

pub open spec fn set_difficulty(d: Difficulty) -> MenuAction {
    MenuAction::UpdateResource(UpdateResourceMenuAction { resource: ResourceValue::Difficulty(d) })
}

pub open spec fn start_rebind(a: GameAction) -> MenuAction {
    MenuAction::UpdateResource(
        UpdateResourceMenuAction {
            resource: ResourceValue::Remapping(ControlRemapping { awaiting: Some(a) }),
        },
    )
}

pub open spec fn is_button(c: MenuComponent, label: Seq<char>, action: MenuAction) -> bool {
    c matches MenuComponent::Button(b) && b.label@ == label && b.action == action
}

pub open spec fn is_label_item(c: MenuItem, label: Seq<char>) -> bool {
    c matches MenuItem::Label(l) && l.label@ == label
}

pub open spec fn is_button_item(c: MenuItem, label: Seq<char>, action: MenuAction) -> bool {
    c matches MenuItem::Button(b) && b.label@ == label && b.action == action
}

pub open spec fn is_choice_item(
    c: MenuItem,
    label: Seq<char>,
    selected: bool,
    action: MenuAction,
) -> bool {
    c matches MenuItem::Selectable(s) && s.label@ == label && s.selected == selected && s.action
        == action
}

/// The keys of a binding, by code, separated by commas.
pub open spec fn key_list(keys: Seq<Key>) -> Seq<char>
    decreases keys.len(),
{
    if keys.len() == 0 {
        Seq::empty()
    } else if keys.len() == 1 {
        decimal(keys[0].code as nat)
    } else {
        key_list(keys.drop_last()) + ", "@ + decimal(keys.last().code as nat)
    }
}

/// What the controls menu shows for a binding.
pub open spec fn binding_label(keys: Seq<Key>) -> Seq<char> {
    if keys.len() == 0 {
        "[Not Set]"@
    } else {
        key_list(keys)
    }
}

pub open spec fn action_name(a: GameAction) -> Seq<char> {
    match a {
        GameAction::Up => "Up"@,
        GameAction::Down => "Down"@,
        GameAction::Menu => "Menu"@,
    }
}

/// The text of a binding's button on the controls menu.
pub fn binding_text(keys: &Vec<Key>) -> (r: String)
    ensures
        r@ == binding_label(keys@),
{
    if keys.len() == 0 {
        return String::from_str("[Not Set]");
    }
    let mut s = String::new();
    push_decimal(&mut s, keys[0].code);
    let mut i: usize = 1;
    assert(s@ =~= key_list(keys@.take(1)));
    while i < keys.len()
        invariant
            1 <= i <= keys@.len(),
            s@ == key_list(keys@.take(i as int)),
        decreases keys@.len() - i,
    {
        s.append(", ");
        push_decimal(&mut s, keys[i].code);
        assert(keys@.take(i + 1).drop_last() =~= keys@.take(i as int));
        assert(s@ =~= key_list(keys@.take(i + 1)));
        i = i + 1;
    }
    assert(keys@.take(keys@.len() as int) =~= keys@);
    s
}

fn action_text(a: GameAction) -> (r: String)
    ensures
        r@ == action_name(a),
{
    match a {
        GameAction::Up => String::from_str("Up"),
        GameAction::Down => String::from_str("Down"),
        GameAction::Menu => String::from_str("Menu"),
    }
}

/// The main menu: start a game, open the settings, or quit.
pub open spec fn is_main_menu(r: MenuBuilder) -> bool {
    &&& r.heading@ == "Pong!"@
    &&& r.components@.len() == 3
    &&& is_button(r.components@[0], "Start Game"@, to_screen(GameState::Playing))
    &&& is_button(r.components@[1], "Settings"@, to_screen(GameState::Settings))
    &&& is_button(r.components@[2], "Quit Game"@, MenuAction::Quit(crate::menu::QuitMenuAction))
}

pub fn main_menu() -> (r: MenuBuilder)
    ensures
        is_main_menu(r),
{
    MenuBuilder::new(String::from_str("Pong!")).add_component(
        MenuComponent::Button(
            MenuButton::new(
                String::from_str("Start Game"),
                ChangeStateMenuAction::new(StateTarget::Game(GameState::Playing)),
            ),
        ),
    ).add_component(
        MenuComponent::Button(
            MenuButton::new(
                String::from_str("Settings"),
                ChangeStateMenuAction::new(StateTarget::Game(GameState::Settings)),
            ),
        ),
    ).add_component(
        MenuComponent::Button(
            MenuButton::new(
                String::from_str("Quit Game"),
                MenuAction::Quit(crate::menu::QuitMenuAction),
            ),
        ),
    )
}

fn difficulty_choice(label: &str, d: Difficulty, current: Difficulty) -> (r: MenuItem)
    ensures
        is_choice_item(r, label@, d == current, set_difficulty(d)),
{
    MenuItem::Selectable(
        MenuSelectableLabel::new(
            String::from_str(label),
            d == current,
            UpdateResourceMenuAction::new(ResourceValue::Difficulty(d)),
        ),
    )
}

/// The settings menu: one choice per difficulty, the current one marked, then
/// the way to the controls and back.
pub open spec fn is_settings_menu(r: MenuBuilder, difficulty: Difficulty) -> bool {
    &&& r.heading@ == "Settings"@
    &&& r.components@.len() == 3
    &&& r.components@[0] matches MenuComponent::Horizontal(row) && {
        &&& row.components@.len() == 4
        &&& is_label_item(row.components@[0], "Difficulty: "@)
        &&& is_choice_item(
            row.components@[1],
            "Easy"@,
            difficulty == Difficulty::Easy,
            set_difficulty(Difficulty::Easy),
        )
        &&& is_choice_item(
            row.components@[2],
            "Difficult"@,
            difficulty == Difficulty::Difficult,
            set_difficulty(Difficulty::Difficult),
        )
        &&& is_choice_item(
            row.components@[3],
            "Impossible"@,
            difficulty == Difficulty::Impossible,
            set_difficulty(Difficulty::Impossible),
        )
    }
    &&& is_button(r.components@[1], "Controls"@, to_screen(GameState::Controls))
    &&& is_button(r.components@[2], "Back"@, to_screen(GameState::Main))
}

pub fn settings_menu(difficulty: Difficulty) -> (r: MenuBuilder)
    ensures
        is_settings_menu(r, difficulty),
{
    let row = MenuLayoutHorizontal::new().add_component(
        MenuItem::Label(MenuLabel::new(String::from_str("Difficulty: "))),
    ).add_component(difficulty_choice("Easy", Difficulty::Easy, difficulty)).add_component(
        difficulty_choice("Difficult", Difficulty::Difficult, difficulty),
    ).add_component(difficulty_choice("Impossible", Difficulty::Impossible, difficulty));
    MenuBuilder::new(String::from_str("Settings")).add_component(
        MenuComponent::Horizontal(row),
    ).add_component(
        MenuComponent::Button(
            MenuButton::new(
                String::from_str("Controls"),
                ChangeStateMenuAction::new(StateTarget::Game(GameState::Controls)),
            ),
        ),
    ).add_component(
        MenuComponent::Button(
            MenuButton::new(
                String::from_str("Back"),
                ChangeStateMenuAction::new(StateTarget::Game(GameState::Main)),
            ),
        ),
    )
}

/// The controls menu's row for action `a`.
pub open spec fn is_binding_row(c: MenuComponent, map: ControlMap, a: GameAction) -> bool {
    c matches MenuComponent::Horizontal(row) && {
        &&& row.components@.len() == 2
        &&& is_label_item(row.components@[0], action_name(a))
        &&& is_button_item(row.components@[1], binding_label(map.keys_of(a)), start_rebind(a))
    }
}

fn binding_row(map: &ControlMap, a: GameAction) -> (r: MenuComponent)
    ensures
        is_binding_row(r, *map, a),
{
    let keys = match a {
        GameAction::Up => &map.up,
        GameAction::Down => &map.down,
        GameAction::Menu => &map.menu,
    };
    let row = MenuLayoutHorizontal::new().add_component(
        MenuItem::Label(MenuLabel::new(action_text(a))),
    ).add_component(
        MenuItem::Button(
            MenuButton::new(
                binding_text(keys),
                UpdateResourceMenuAction::new(
                    ResourceValue::Remapping(ControlRemapping::start_remapping(a)),
                ),
            ),
        ),
    );
    MenuComponent::Horizontal(row)
}

/// One row per action with its keys; a click on the keys starts a rebind.
pub open spec fn is_controls_menu(r: MenuBuilder, map: ControlMap) -> bool {
    &&& r.heading@ == "Controls"@
    &&& r.components@.len() == 4
    &&& is_binding_row(r.components@[0], map, GameAction::Up)
    &&& is_binding_row(r.components@[1], map, GameAction::Down)
    &&& is_binding_row(r.components@[2], map, GameAction::Menu)
    &&& is_button(r.components@[3], "Back"@, to_screen(GameState::Settings))
}

pub fn controls_menu(map: &ControlMap) -> (r: MenuBuilder)
    ensures
        is_controls_menu(r, *map),
{
    MenuBuilder::new(String::from_str("Controls")).add_component(
        binding_row(map, GameAction::Up),
    ).add_component(binding_row(map, GameAction::Down)).add_component(
        binding_row(map, GameAction::Menu),
    ).add_component(
        MenuComponent::Button(
            MenuButton::new(
                String::from_str("Back"),
                ChangeStateMenuAction::new(StateTarget::Game(GameState::Settings)),
            ),
        ),
    )
}

/// The pause menu: resume, or leave for the main menu.
pub open spec fn is_paused_menu(r: MenuBuilder) -> bool {
    &&& r.heading@ == "Paused"@
    &&& r.components@.len() == 2
    &&& is_button(r.components@[0], "Resume"@, to_pause_state(PausedState::Playing))
    &&& is_button(r.components@[1], "Main Menu"@, to_screen(GameState::Main))
}

pub fn paused_menu() -> (r: MenuBuilder)
    ensures
        is_paused_menu(r),
{
    MenuBuilder::new(String::from_str("Paused")).add_component(
        MenuComponent::Button(
            MenuButton::new(
                String::from_str("Resume"),
                ChangeStateMenuAction::new(StateTarget::Paused(PausedState::Playing)),
            ),
        ),
    ).add_component(
        MenuComponent::Button(
            MenuButton::new(
                String::from_str("Main Menu"),
                ChangeStateMenuAction::new(StateTarget::Game(GameState::Main)),
            ),
        ),
    )
}

/// The menu of the session's screen: none while play runs.
pub fn current_menu(s: &Session) -> (r: Option<MenuBuilder>)
    ensures
        s.mode == GameState::Main ==> (r matches Some(m) && is_main_menu(m)),
        s.mode == GameState::Settings ==> (r matches Some(m) && is_settings_menu(m, s.difficulty)),
        s.mode == GameState::Controls ==> (r matches Some(m) && is_controls_menu(m, s.controls)),
        s.mode == GameState::Playing && s.paused == PausedState::Paused ==> (r matches Some(m)
            && is_paused_menu(m)),
        s.running() ==> r is None,
{
    match s.mode {
        GameState::Main => Some(main_menu()),
        GameState::Settings => Some(settings_menu(s.difficulty)),
        GameState::Controls => Some(controls_menu(&s.controls)),
        GameState::Playing => {
            if s.paused == PausedState::Paused {
                Some(paused_menu())
            } else {
                None
            }
        },
    }
}

} // verus!
