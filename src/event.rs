//! The application's input events, and the key bindings that produce them.

use vstd::prelude::*;

verus! {

/// Everything the application reacts to.
#[derive(Debug, Clone, Copy, PartialEq, Eq, Structural)]
pub enum AppEvent {
    /// Quit the application.
    Quit,
    /// Switch to the tab of the given index.
    NavigateTab(usize),
    /// Move the selection or scroll up.
    Up,
    /// Move the selection or scroll down.
    Down,
    /// Confirm or activate.
    Enter,
    /// Start the selected instance.
    Start,
    /// Stop the selected instance.
    Stop,
    /// Terminate the selected instance, after confirmation.
    Terminate,
    /// Reload the current screen's data.
    Refresh,
    /// Schedule an auto-stop for the selected instance.
    Schedule,
    /// Show the help popup.
    ShowHelp,
    /// Open the settings dialog.
    OpenSettings,
    /// Change the selected setting by the given step (+1 or -1).
    ModifySettingValue(i32),
    /// Close the settings dialog without saving, or any other dialog.
    CancelSettings,
    /// The terminal now has this width and height.
    Resize(u16, u16),
    /// Open the provider configuration dialog.
    ConfigureAws,
    /// Start a single sign-on login.
    SsoLogin,
    /// Show the changelog.
    ShowChangelog,
    /// Nothing happened.
    Nothing,
}

/// A key of the keyboard, as far as the bindings tell keys apart.
#[derive(Debug, Clone, Copy, PartialEq, Eq, Structural)]
pub enum Key {
    Char(char),
    Up,
    Down,
    Left,
    Right,
    Enter,
    Esc,
    Other,
}

/// A key press: the key, and whether Control was the only modifier held.
#[derive(Debug, Clone, Copy, PartialEq, Eq, Structural)]
pub struct KeyPress {
    pub key: Key,
    pub control_only: bool,
}

/// The event a key press stands for.
pub open spec fn key_event(k: KeyPress) -> AppEvent {
    match k.key {
        Key::Char(c) => {
            if c == 'q' {
                AppEvent::Quit
            } else if c == 'c' && k.control_only {
                AppEvent::Quit
            } else if c == '1' {
                AppEvent::NavigateTab(0)
            } else if c == '2' {
                AppEvent::NavigateTab(1)
            } else if c == '3' {
                AppEvent::NavigateTab(2)
            } else if c == '4' {
                AppEvent::NavigateTab(3)
            } else if c == '5' {
                AppEvent::NavigateTab(4)
            } else if c == 'k' {
                AppEvent::Up
            } else if c == 'j' {
                AppEvent::Down
            } else if c == 's' {
                AppEvent::Start
            } else if c == 'x' {
                AppEvent::Stop
            } else if c == 't' {
                AppEvent::Terminate
            } else if c == 'r' {
                AppEvent::Refresh
            } else if c == 'a' {
                AppEvent::Schedule
            } else if c == '?' || c == 'h' {
                AppEvent::ShowHelp
            } else if c == ',' {
                AppEvent::OpenSettings
            } else if c == '-' {
                AppEvent::ModifySettingValue(-1i32)
            } else if c == '+' || c == '=' {
                AppEvent::ModifySettingValue(1i32)
            } else if c == 'c' {
                AppEvent::ConfigureAws
            } else if c == 'l' {
                AppEvent::SsoLogin
            } else {
                AppEvent::Nothing
            }
        },
        Key::Up => AppEvent::Up,
        Key::Down => AppEvent::Down,
        Key::Enter => AppEvent::Enter,
        Key::Left => AppEvent::ModifySettingValue(-1i32),
        Key::Right => AppEvent::ModifySettingValue(1i32),
        Key::Esc => AppEvent::CancelSettings,
        Key::Other => AppEvent::Nothing,
    }
}

/// Maps a key press to its event.
pub fn map_key_event(k: KeyPress) -> (r: AppEvent)
    ensures
        r == key_event(k),
{
    match k.key {
        Key::Char(c) => {
            if c == 'q' || (c == 'c' && k.control_only) {
                AppEvent::Quit
            } else if c == '1' {
                AppEvent::NavigateTab(0)
            } else if c == '2' {
                AppEvent::NavigateTab(1)
            } else if c == '3' {
                AppEvent::NavigateTab(2)
            } else if c == '4' {
                AppEvent::NavigateTab(3)
            } else if c == '5' {
                AppEvent::NavigateTab(4)
            } else if c == 'k' {
                AppEvent::Up
            } else if c == 'j' {
                AppEvent::Down
            } else if c == 's' {
                AppEvent::Start
            } else if c == 'x' {
                AppEvent::Stop
            } else if c == 't' {
                AppEvent::Terminate
            } else if c == 'r' {
                AppEvent::Refresh
            } else if c == 'a' {
                AppEvent::Schedule
            } else if c == '?' || c == 'h' {
                AppEvent::ShowHelp
            } else if c == ',' {
                AppEvent::OpenSettings
            } else if c == '-' {
                AppEvent::ModifySettingValue(-1)
            } else if c == '+' || c == '=' {
                AppEvent::ModifySettingValue(1)
            } else if c == 'c' {
                AppEvent::ConfigureAws
            } else if c == 'l' {
                AppEvent::SsoLogin
            } else {
                AppEvent::Nothing
            }
        },
        Key::Up => AppEvent::Up,
        Key::Down => AppEvent::Down,
        Key::Enter => AppEvent::Enter,
        Key::Left => AppEvent::ModifySettingValue(-1),
        Key::Right => AppEvent::ModifySettingValue(1),
        Key::Esc => AppEvent::CancelSettings,
        Key::Other => AppEvent::Nothing,
    }
}

} // verus!
