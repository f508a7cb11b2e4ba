//! Logical input values. The application decodes terminal input into a
//! `Key` (with a control-modifier flag) before anything here sees it; the
//! router turns keys into `AppEvent`s for the non-editor layers.

use vstd::prelude::*;

verus! {

/// A decoded key, free of any terminal encoding.
#[derive(Debug, Clone, Copy, PartialEq, Eq, Structural)]
pub enum Key {
    Char(char),
    Enter,
    Esc,
    Backspace,
    Tab,
    BackTab,
    Left,
    Right,
    Up,
    Down,
    Delete,
}

/// A key press: the key and whether Control was held.
#[derive(Debug, Clone, Copy, PartialEq, Eq, Structural)]
pub struct KeyPress {
    pub code: Key,
    pub ctrl: bool,
}

/// The application-level events the router produces for the layers outside
/// the editors.
#[derive(Debug, Clone, Copy, PartialEq, Eq, Structural)]
pub enum AppEvent {
    Quit,
    Up,
    Down,
    Enter,
    Space,
    Delete,
    Tab,
    BackTab,
    Escape,
    ToggleTheme,
    OpenSettings,
    AddTodo,
    EditTodo,
    PreviewTodo,
    ToggleExpand,
    ExpandAll,
    CollapseAll,
    IncreaseSplit,
    DecreaseSplit,
    SwitchPane,
    GoToLeftPane,
    GoToRightPane,
    ToggleZoom,
    Backspace,
    Left,
    Right,
    CtrlEnter,
    Save,
    ShowHelp,
    Char(char),
}

} // verus!
