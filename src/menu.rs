use vstd::prelude::*;

use crate::controls::ControlRemapping;
use crate::difficulty::Difficulty;
use crate::states::{GameState, PausedState};

verus! {

/// A state that a menu may ask for.
#[derive(Clone, Copy, Debug, PartialEq, Eq, Structural)]
pub enum StateTarget {
    Game(GameState),
    Paused(PausedState),
}

/// A value that a menu may overwrite.
#[derive(Clone, Copy, Debug, PartialEq, Eq, Structural)]
pub enum ResourceValue {
    Difficulty(Difficulty),
    Remapping(ControlRemapping),
}

/// Asks for a change of screen or of the pause state at the next tick.
#[derive(Clone, Copy, Debug, PartialEq, Eq, Structural)]
pub struct ChangeStateMenuAction {
    pub next_state: StateTarget,
}

/// Overwrites the difficulty or the rebind in progress.
#[derive(Clone, Copy, Debug, PartialEq, Eq, Structural)]
pub struct UpdateResourceMenuAction {
    pub resource: ResourceValue,
}

/// Ends the program.
#[derive(Clone, Copy, Debug, PartialEq, Eq, Structural)]
pub struct QuitMenuAction;

/// What a click on a menu control does; fixed when the control is made.
#[derive(Clone, Copy, Debug, PartialEq, Eq, Structural)]
pub enum MenuAction {
    ChangeState(ChangeStateMenuAction),
    UpdateResource(UpdateResourceMenuAction),
    Quit(QuitMenuAction),
}

impl ChangeStateMenuAction {
    pub fn new(next_state: StateTarget) -> (r: MenuAction)
        ensures
            r == MenuAction::ChangeState(ChangeStateMenuAction { next_state }),
    {
        MenuAction::ChangeState(ChangeStateMenuAction { next_state })
    }
}

impl UpdateResourceMenuAction {
    pub fn new(resource: ResourceValue) -> (r: MenuAction)
        ensures
            r == MenuAction::UpdateResource(UpdateResourceMenuAction { resource }),
    {
        MenuAction::UpdateResource(UpdateResourceMenuAction { resource })
    }
}

pub struct MenuLabel {
    pub label: String,
}

pub struct MenuButton {
    pub label: String,
    pub action: MenuAction,
}

/// A label that can be picked from a row; `selected` marks the current choice.
pub struct MenuSelectableLabel {
    pub label: String,
    pub selected: bool,
    pub action: MenuAction,
}

/// One of a row of choices under a common label.
pub struct MenuChoice {
    pub label: String,
    pub selected: bool,
    pub action: MenuAction,
}

/// A labelled row of choices.
pub struct MenuOptions {
    pub label: String,
    pub options: Vec<MenuChoice>,
}

/// Controls laid out side by side.
pub struct MenuLayoutHorizontal {
    pub components: Vec<MenuItem>,
}

/// A control that stands in a row.
pub enum MenuItem {
    Label(MenuLabel),
    Button(MenuButton),
    Selectable(MenuSelectableLabel),
}

/// A line of a menu, from the top.
pub enum MenuComponent {
    Label(MenuLabel),
    Button(MenuButton),
    Selectable(MenuSelectableLabel),
    Horizontal(MenuLayoutHorizontal),
    Options(MenuOptions),
}

/// A menu: a heading and its lines, in order.
pub struct MenuBuilder {
    pub heading: String,
    pub components: Vec<MenuComponent>,
}

impl MenuLabel {
    pub fn new(label: String) -> (r: MenuLabel)
        ensures
            r.label@ == label@,
    {
        MenuLabel { label }
    }
}

impl MenuButton {
    pub fn new(label: String, action: MenuAction) -> (r: MenuButton)
        ensures
            r.label@ == label@,
            r.action == action,
    {
        MenuButton { label, action }
    }
}

impl MenuSelectableLabel {
    pub fn new(label: String, selected: bool, action: MenuAction) -> (r: MenuSelectableLabel)
        ensures
            r.label@ == label@,
            r.selected == selected,
            r.action == action,
    {
        MenuSelectableLabel { label, selected, action }
    }
}

impl MenuOptions {
    pub fn new(label: String) -> (r: MenuOptions)
        ensures
            r.label@ == label@,
            r.options@.len() == 0,
    {
        MenuOptions { label, options: Vec::new() }
    }

    pub fn add_option(self, label: String, selected: bool, action: MenuAction) -> (r: MenuOptions)
        ensures
            r.label@ == self.label@,
            r.options@.len() == self.options@.len() + 1,
            forall|i: int| 0 <= i < self.options@.len() ==> r.options@[i] == self.options@[i],
            r.options@.last().label@ == label@,
            r.options@.last().selected == selected,
            r.options@.last().action == action,
    {
        let mut options = self.options;
        options.push(MenuChoice { label, selected, action });
        MenuOptions { label: self.label, options }
    }
}

impl MenuLayoutHorizontal {
    pub fn new() -> (r: MenuLayoutHorizontal)
        ensures
            r.components@.len() == 0,
    {
        MenuLayoutHorizontal { components: Vec::new() }
    }

    pub fn add_component(self, component: MenuItem) -> (r: MenuLayoutHorizontal)
        ensures
            r.components@ == self.components@.push(component),
    {
        let mut components = self.components;
        components.push(component);
        MenuLayoutHorizontal { components }
    }
}

impl MenuBuilder {
    pub fn new(heading: String) -> (r: MenuBuilder)
        ensures
            r.heading@ == heading@,
            r.components@.len() == 0,
    {
        MenuBuilder { heading, components: Vec::new() }
    }

    pub fn add_component(self, component: MenuComponent) -> (r: MenuBuilder)
        ensures
            r.heading@ == self.heading@,
            r.components@ == self.components@.push(component),
    {
        let mut components = self.components;
        components.push(component);
        MenuBuilder { heading: self.heading, components }
    }
}

} // verus!
