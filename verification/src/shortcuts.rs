//! The window's keyboard shortcuts: which command a key press with its
//! modifiers asks for.

use vstd::prelude::*;

use crate::layout::{FocusDirection, SplitOrientation};

verus! {

/// The keys that take part in a shortcut; every other key is `Other`.
#[derive(Debug, Clone, Copy, PartialEq, Eq, Structural)]
pub enum ShortcutKey {
    T,
    W,
    X,
    D,
    E,
    U,
    P,
    PageDown,
    PageUp,
    Left,
    Right,
    Up,
    Down,
    BracketLeft,
    BracketRight,
    Period,
    Comma,
    F2,
    Other,
}

/// What a shortcut asks the window to do.
#[derive(Debug, Clone, Copy, PartialEq, Eq, Structural)]
pub enum Shortcut {
    /// Open a new workspace and select it.
    NewWorkspace,
    /// Close the focused surface of the selected workspace.
    CloseSurface,
    /// Close the focused pane of the selected workspace.
    ClosePane,
    /// Split the selected workspace's focused pane.
    Split(SplitOrientation),
    /// Select the workspace with the newest unread notification.
    SelectLatestUnread,
    /// Select the next workspace, wrapping around.
    NextWorkspace,
    /// Select the previous workspace, wrapping around.
    PreviousWorkspace,
    /// Move the focus to the neighbouring pane.
    FocusPane(FocusDirection),
    /// Move the focused pane's divider.
    ResizePane(FocusDirection),
    /// Select the next surface of the focused pane.
    NextSurface,
    /// Select the previous surface of the focused pane.
    PreviousSurface,
    /// Move the focused surface one place later among its pane's tabs.
    MoveSurfaceForward,
    /// Move the focused surface one place earlier among its pane's tabs.
    MoveSurfaceBackward,
    /// Move the selected workspace one place down the list.
    MoveWorkspaceDown,
    /// Move the selected workspace one place up the list.
    MoveWorkspaceUp,
    /// Pin or unpin the selected workspace.
    TogglePin,
    /// Ask for a new title of the selected workspace.
    RenameWorkspace,
}

/// The arrow keys as directions.
pub open spec fn arrow_direction(key: ShortcutKey) -> Option<FocusDirection> {
    match key {
        ShortcutKey::Left => Some(FocusDirection::Left),
        ShortcutKey::Right => Some(FocusDirection::Right),
        ShortcutKey::Up => Some(FocusDirection::Up),
        ShortcutKey::Down => Some(FocusDirection::Down),
        _ => None,
    }
}

/// The command of a key pressed with the given modifiers, if it is a
/// shortcut. Control and Shift with a letter or a bracket or page key
/// act on workspaces, panes and surfaces; Control and Alt with an arrow
/// move the focus, and with Shift too resize the pane; Control, Shift and
/// Alt with a bracket move the surface; F2 alone renames.
pub open spec fn shortcut_of(key: ShortcutKey, ctrl: bool, shift: bool, alt: bool) -> Option<Shortcut> {
    if ctrl && shift && !alt {
        match key {
            ShortcutKey::T => Some(Shortcut::NewWorkspace),
            ShortcutKey::W => Some(Shortcut::CloseSurface),
            ShortcutKey::X => Some(Shortcut::ClosePane),
            ShortcutKey::D => Some(Shortcut::Split(SplitOrientation::Horizontal)),
            ShortcutKey::E => Some(Shortcut::Split(SplitOrientation::Vertical)),
            ShortcutKey::U => Some(Shortcut::SelectLatestUnread),
            ShortcutKey::PageDown => Some(Shortcut::NextWorkspace),
            ShortcutKey::PageUp => Some(Shortcut::PreviousWorkspace),
            ShortcutKey::BracketRight => Some(Shortcut::NextSurface),
            ShortcutKey::BracketLeft => Some(Shortcut::PreviousSurface),
            ShortcutKey::Period => Some(Shortcut::MoveWorkspaceDown),
            ShortcutKey::Comma => Some(Shortcut::MoveWorkspaceUp),
            ShortcutKey::P => Some(Shortcut::TogglePin),
            _ => None,
        }
    } else if ctrl && !shift && alt {
        match arrow_direction(key) {
            Some(d) => Some(Shortcut::FocusPane(d)),
            None => None,
        }
    } else if ctrl && shift && alt {
        match key {
            ShortcutKey::BracketRight => Some(Shortcut::MoveSurfaceForward),
            ShortcutKey::BracketLeft => Some(Shortcut::MoveSurfaceBackward),
            _ => match arrow_direction(key) {
                Some(d) => Some(Shortcut::ResizePane(d)),
                None => None,
            },
        }
    } else if !ctrl && !shift && !alt && key == ShortcutKey::F2 {
        Some(Shortcut::RenameWorkspace)
    } else {
        None
    }
}

/// The command of a key pressed with the given modifiers, if it is a
/// shortcut (see `shortcut_of`).
pub fn shortcut_for(key: ShortcutKey, ctrl: bool, shift: bool, alt: bool) -> (s: Option<Shortcut>)
    ensures
        s == shortcut_of(key, ctrl, shift, alt),
{
    let arrow = match key {
        ShortcutKey::Left => Some(FocusDirection::Left),
        ShortcutKey::Right => Some(FocusDirection::Right),
        ShortcutKey::Up => Some(FocusDirection::Up),
        ShortcutKey::Down => Some(FocusDirection::Down),
        _ => None,
    };
    if ctrl && shift && !alt {
        match key {
            ShortcutKey::T => Some(Shortcut::NewWorkspace),
            ShortcutKey::W => Some(Shortcut::CloseSurface),
            ShortcutKey::X => Some(Shortcut::ClosePane),
            ShortcutKey::D => Some(Shortcut::Split(SplitOrientation::Horizontal)),
            ShortcutKey::E => Some(Shortcut::Split(SplitOrientation::Vertical)),
            ShortcutKey::U => Some(Shortcut::SelectLatestUnread),
            ShortcutKey::PageDown => Some(Shortcut::NextWorkspace),
            ShortcutKey::PageUp => Some(Shortcut::PreviousWorkspace),
            ShortcutKey::BracketRight => Some(Shortcut::NextSurface),
            ShortcutKey::BracketLeft => Some(Shortcut::PreviousSurface),
            ShortcutKey::Period => Some(Shortcut::MoveWorkspaceDown),
            ShortcutKey::Comma => Some(Shortcut::MoveWorkspaceUp),
            ShortcutKey::P => Some(Shortcut::TogglePin),
            _ => None,
        }
    } else if ctrl && !shift && alt {
        match arrow {
            Some(d) => Some(Shortcut::FocusPane(d)),
            None => None,
        }
    } else if ctrl && shift && alt {
        match key {
            ShortcutKey::BracketRight => Some(Shortcut::MoveSurfaceForward),
            ShortcutKey::BracketLeft => Some(Shortcut::MoveSurfaceBackward),
            _ => match arrow {
                Some(d) => Some(Shortcut::ResizePane(d)),
                None => None,
            },
        }
    } else if !ctrl && !shift && !alt && key == ShortcutKey::F2 {
        Some(Shortcut::RenameWorkspace)
    } else {
        None
    }
}

} // verus!
