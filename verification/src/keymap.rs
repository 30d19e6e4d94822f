//! Key bindings: which command a key press stands for in each mode.

use crate::navigation::AppMode;
use vstd::prelude::*;

verus! {

/// Thousandths of full scale by which one key press changes the volume.
pub const VOLUME_STEP: u32 = 50;

/// Seconds by which one key press seeks.
pub const SEEK_STEP_SECONDS: u32 = 5;

/// A key of the keyboard, as far as the bindings tell keys apart.
#[derive(Clone, Copy, Debug, PartialEq, Eq)]
pub enum Key {
    Enter,
    Esc,
    Backspace,
    Up,
    Down,
    Left,
    Right,
    Char(char),
    Other,
}

/// The modifier keys held with a key.
#[derive(Clone, Copy, Debug, PartialEq, Eq)]
pub enum Modifiers {
    /// No modifier.
    Plain,
    /// Control alone.
    Control,
    /// Shift alone.
    Shift,
    /// Any other modifier or combination.
    Other,
}

#[derive(Clone, Copy, Debug, PartialEq, Eq)]
pub struct KeyPress {
    pub key: Key,
    pub modifiers: Modifiers,
}

/// What a key press asks for.
#[derive(Clone, Copy, Debug, PartialEq, Eq)]
pub enum Command {
    /// The key is not bound.
    Ignore,
    Quit,
    PlaySelected,
    MoveDown,
    MoveUp,
    HalfPageDown,
    HalfPageUp,
    GoToTop,
    GoToBottom,
    StartSearch,
    ShowPlay,
    ShowHelp,
    ShowNormal,
    TogglePause,
    SeekForward,
    SeekBackward,
    VolumeUp,
    VolumeDown,
    /// Append the character to the search.
    SearchType(char),
    /// Delete the last character of the search.
    SearchErase,
    /// Leave the search and drop what was typed.
    SearchCancel,
    /// Leave the search and keep its results.
    SearchAccept,
}

/// The bindings while browsing the list.
pub open spec fn normal_binding(press: KeyPress) -> Command {
    match (press.key, press.modifiers) {
        (Key::Enter, Modifiers::Plain) => Command::PlaySelected,
        (Key::Char('j'), Modifiers::Plain) => Command::MoveDown,
        (Key::Down, Modifiers::Plain) => Command::MoveDown,
        (Key::Char('k'), Modifiers::Plain) => Command::MoveUp,
        (Key::Up, Modifiers::Plain) => Command::MoveUp,
        (Key::Char('d'), Modifiers::Control) => Command::HalfPageDown,
        (Key::Char('u'), Modifiers::Control) => Command::HalfPageUp,
        (Key::Char('g'), Modifiers::Plain) => Command::GoToTop,
        (Key::Char('G'), Modifiers::Shift) => Command::GoToBottom,
        (Key::Char('/'), Modifiers::Plain) => Command::StartSearch,
        (Key::Char('p'), Modifiers::Plain) => Command::ShowPlay,
        (Key::Char('h'), Modifiers::Plain) => Command::ShowHelp,
        (Key::Char('q'), Modifiers::Plain) => Command::Quit,
        (Key::Esc, Modifiers::Plain) => Command::Quit,
        _ => Command::Ignore,
    }
}

/// The bindings of the transport controls.
pub open spec fn play_binding(press: KeyPress) -> Command {
    match (press.key, press.modifiers) {
        (Key::Esc, Modifiers::Plain) => Command::ShowNormal,
        (Key::Char(' '), Modifiers::Plain) => Command::TogglePause,
        (Key::Right, Modifiers::Plain) => Command::SeekForward,
        (Key::Left, Modifiers::Plain) => Command::SeekBackward,
        (Key::Char('+'), Modifiers::Plain) => Command::VolumeUp,
        (Key::Char('-'), Modifiers::Plain) => Command::VolumeDown,
        (Key::Char('q'), Modifiers::Plain) => Command::Quit,
        _ => Command::Ignore,
    }
}

/// The bindings while a search is typed. Modifiers play no part.
pub open spec fn search_binding(press: KeyPress) -> Command {
    match press.key {
        Key::Char(c) => Command::SearchType(c),
        Key::Backspace => Command::SearchErase,
        Key::Esc => Command::SearchCancel,
        Key::Enter => Command::SearchAccept,
        _ => Command::Ignore,
    }
}

/// The bindings on the help page.
pub open spec fn help_binding(press: KeyPress) -> Command {
    match (press.key, press.modifiers) {
        (Key::Esc, Modifiers::Plain) => Command::ShowNormal,
        (Key::Char('q'), Modifiers::Plain) => Command::Quit,
        _ => Command::Ignore,
    }
}

/// The command that `press` stands for in `mode`.
pub open spec fn binding(mode: AppMode, press: KeyPress) -> Command {
    match mode {
        AppMode::Normal => normal_binding(press),
        AppMode::Play => play_binding(press),
        AppMode::Search => search_binding(press),
        AppMode::Help => help_binding(press),
    }
}

fn unmodified(press: KeyPress) -> (plain: bool)
    ensures
        plain == (press.modifiers == Modifiers::Plain),
{
    match press.modifiers {
        Modifiers::Plain => true,
        _ => false,
    }
}

fn dispatch_normal(press: KeyPress) -> (command: Command)
    ensures
        command == normal_binding(press),
{
    match press.modifiers {
        Modifiers::Plain => match press.key {
            Key::Enter => Command::PlaySelected,
            Key::Down => Command::MoveDown,
            Key::Up => Command::MoveUp,
            Key::Esc => Command::Quit,
            Key::Char(c) => {
                if c == 'j' {
                    Command::MoveDown
                } else if c == 'k' {
                    Command::MoveUp
                } else if c == 'g' {
                    Command::GoToTop
                } else if c == '/' {
                    Command::StartSearch
                } else if c == 'p' {
                    Command::ShowPlay
                } else if c == 'h' {
                    Command::ShowHelp
                } else if c == 'q' {
                    Command::Quit
                } else {
                    Command::Ignore
                }
            },
            _ => Command::Ignore,
        },
        Modifiers::Control => match press.key {
            Key::Char(c) => {
                if c == 'd' {
                    Command::HalfPageDown
                } else if c == 'u' {
                    Command::HalfPageUp
                } else {
                    Command::Ignore
                }
            },
            _ => Command::Ignore,
        },
        Modifiers::Shift => match press.key {
            Key::Char(c) => {
                if c == 'G' {
                    Command::GoToBottom
                } else {
                    Command::Ignore
                }
            },
            _ => Command::Ignore,
        },
        Modifiers::Other => Command::Ignore,
    }
}

fn dispatch_play(press: KeyPress) -> (command: Command)
    ensures
        command == play_binding(press),
{
    if !unmodified(press) {
        return Command::Ignore;
    }
    match press.key {
        Key::Esc => Command::ShowNormal,
        Key::Right => Command::SeekForward,
        Key::Left => Command::SeekBackward,
        Key::Char(c) => {
            if c == ' ' {
                Command::TogglePause
            } else if c == '+' {
                Command::VolumeUp
            } else if c == '-' {
                Command::VolumeDown
            } else if c == 'q' {
                Command::Quit
            } else {
                Command::Ignore
            }
        },
        _ => Command::Ignore,
    }
}

fn dispatch_search(press: KeyPress) -> (command: Command)
    ensures
        command == search_binding(press),
{
    match press.key {
        Key::Char(c) => Command::SearchType(c),
        Key::Backspace => Command::SearchErase,
        Key::Esc => Command::SearchCancel,
        Key::Enter => Command::SearchAccept,
        _ => Command::Ignore,
    }
}

fn dispatch_help(press: KeyPress) -> (command: Command)
    ensures
        command == help_binding(press),
{
    if !unmodified(press) {
        return Command::Ignore;
    }
    match press.key {
        Key::Esc => Command::ShowNormal,
        Key::Char(c) => {
            if c == 'q' {
                Command::Quit
            } else {
                Command::Ignore
            }
        },
        _ => Command::Ignore,
    }
}

/// The command that `press` stands for in `mode`.
pub fn dispatch(mode: AppMode, press: KeyPress) -> (command: Command)
    ensures
        command == binding(mode, press),
{
    match mode {
        AppMode::Normal => dispatch_normal(press),
        AppMode::Play => dispatch_play(press),
        AppMode::Search => dispatch_search(press),
        AppMode::Help => dispatch_help(press),
    }
}

} // verus!
