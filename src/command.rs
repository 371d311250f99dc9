//! The commands that key presses stand for, with the key label and the short
//! description that a help legend shows for each.

use vstd::prelude::*;

verus! {

/// A key, as far as the widgets tell keys apart.
#[derive(Clone, Copy, Debug, PartialEq, Eq, Structural)]
pub enum Key {
    Char(char),
    Backspace,
    Delete,
    Enter,
    Left,
    Right,
    Up,
    Down,
    PageUp,
    PageDown,
    Tab,
    Esc,
    Other,
}

/// The modifier keys held with a key: control, and whether any other
/// modifier was held too.
#[derive(Clone, Copy, Debug, PartialEq, Eq, Structural)]
pub struct Modifiers {
    pub control: bool,
    pub other: bool,
}

impl Modifiers {
    /// Control held, and no other modifier.
    pub open spec fn only_control(self) -> bool {
        self.control && !self.other
    }
}

/// One input event as the widgets see it: a key press, a turn of the mouse
/// wheel, or anything else.
#[derive(Clone, Copy, Debug, PartialEq, Eq, Structural)]
pub enum InputEvent {
    Key(Key, Modifiers),
    ScrollUp,
    ScrollDown,
    Other,
}

/// Control-`c`, with control held among other modifiers or alone.
pub open spec fn is_control_c(ev: InputEvent) -> bool {
    ev matches InputEvent::Key(Key::Char(c), m) && c == 'c' && m.control
}

/// Whether `ev` is control-`c`.
pub fn control_c(ev: InputEvent) -> (r: bool)
    ensures
        r == is_control_c(ev),
{
    match ev {
        InputEvent::Key(Key::Char(c), m) => c == 'c' && m.control,
        _ => false,
    }
}

/// The events that close an indicator: Esc or control-`c`.
pub open spec fn closes_indicator(ev: InputEvent) -> bool {
    is_control_c(ev) || ev matches InputEvent::Key(Key::Esc, _)
}

/// Whether `ev` closes an indicator.
pub fn closes_on_escape(ev: InputEvent) -> (r: bool)
    ensures
        r == closes_indicator(ev),
{
    control_c(ev) || matches!(ev, InputEvent::Key(Key::Esc, _))
}

/// The events that close a clock display: Esc, `q` or control-`c`.
pub open spec fn closes_clock(ev: InputEvent) -> bool {
    closes_indicator(ev) || ev matches InputEvent::Key(Key::Char('q'), _)
}

/// Whether `ev` closes a clock display.
pub fn closes_on_escape_or_q(ev: InputEvent) -> (r: bool)
    ensures
        r == closes_clock(ev),
{
    closes_on_escape(ev) || matches!(ev, InputEvent::Key(Key::Char('q'), _))
}

/// What a key press asks a widget to do.
#[derive(Clone, Copy, Debug, PartialEq, Eq, Structural)]
pub enum Command {
    Quit,
    Backspace,
    Delete,
    Help,
    ControlC,
    Enter,
    Filter,
    Esc,
    Up,
    Down,
}

/// The command a key press stands for: control-c exits, the named keys stand
/// for their commands, `q` quits, `/` filters, and anything else asks for help.
pub open spec fn command_of(key: Key, modifiers: Modifiers) -> Command {
    match key {
        Key::Char(c) => if c == 'c' && modifiers.only_control() {
            Command::ControlC
        } else if c == 'q' {
            Command::Quit
        } else if c == '/' {
            Command::Filter
        } else {
            Command::Help
        },
        Key::Backspace => Command::Backspace,
        Key::Delete => Command::Delete,
        Key::Enter => Command::Enter,
        Key::Up => Command::Up,
        Key::Down => Command::Down,
        Key::Esc => Command::Esc,
        _ => Command::Help,
    }
}

/// The key label a help legend shows for a command.
pub open spec fn key_label(c: Command) -> Seq<char> {
    match c {
        Command::Quit => "q"@,
        Command::Esc => "esc"@,
        Command::Backspace => "Backspace"@,
        Command::Delete => "del"@,
        Command::Help => "h"@,
        Command::ControlC => "cntrl+c"@,
        Command::Enter => "\u{2B90}"@,
        Command::Filter => "/"@,
        Command::Up => "\u{2191}/h"@,
        Command::Down => "\u{2193}/l"@,
    }
}

/// The description a help legend shows for a command.
pub open spec fn description(c: Command) -> Seq<char> {
    match c {
        Command::Quit => "quit"@,
        Command::Backspace => "backspace"@,
        Command::Delete => "delete"@,
        Command::ControlC => "exit"@,
        Command::Help => "help"@,
        Command::Enter => "submit"@,
        Command::Filter => "filter"@,
        Command::Up => "up"@,
        Command::Down => "down"@,
        Command::Esc => "cancel"@,
    }
}

impl Command {
    /// The command that `key` pressed with `modifiers` stands for.
    pub fn describe(key: Key, modifiers: Modifiers) -> (r: Command)
        ensures
            r == command_of(key, modifiers),
    {
        match key {
            Key::Char(c) => {
                if c == 'c' && modifiers.control && !modifiers.other {
                    Command::ControlC
                } else if c == 'q' {
                    Command::Quit
                } else if c == '/' {
                    Command::Filter
                } else {
                    Command::Help
                }
            },
            Key::Backspace => Command::Backspace,
            Key::Delete => Command::Delete,
            Key::Enter => Command::Enter,
            Key::Up => Command::Up,
            Key::Down => Command::Down,
            Key::Esc => Command::Esc,
            _ => Command::Help,
        }
    }

    /// The key label a help legend shows for this command.
    pub fn key(&self) -> (r: &'static str)
        ensures
            r@ == key_label(*self),
    {
        match *self {
            Command::Quit => "q",
            Command::Esc => "esc",
            Command::Backspace => "Backspace",
            Command::Delete => "del",
            Command::Help => "h",
            Command::ControlC => "cntrl+c",
            Command::Enter => "\u{2B90}",
            Command::Filter => "/",
            Command::Up => "\u{2191}/h",
            Command::Down => "\u{2193}/l",
        }
    }

    /// The description a help legend shows for this command.
    pub fn as_str(&self) -> (r: &'static str)
        ensures
            r@ == description(*self),
    {
        match *self {
            Command::Quit => "quit",
            Command::Backspace => "backspace",
            Command::Delete => "delete",
            Command::ControlC => "exit",
            Command::Help => "help",
            Command::Enter => "submit",
            Command::Filter => "filter",
            Command::Up => "up",
            Command::Down => "down",
            Command::Esc => "cancel",
        }
    }
}

/// A line of a help legend: the key label, the modifiers it was made for, and
/// the description.
#[derive(Clone, Debug)]
pub struct CommandInfo {
    pub key: String,
    pub modifiers: Modifiers,
    pub description: String,
}

impl CommandInfo {
    /// The legend line for the command that `key` with `modifiers` stands for.
    pub fn new(key: Key, modifiers: Modifiers) -> (r: CommandInfo)
        ensures
            r.key@ == key_label(command_of(key, modifiers)),
            r.description@ == description(command_of(key, modifiers)),
            r.modifiers == modifiers,
    {
        let command = Command::describe(key, modifiers);
        CommandInfo {
            key: command.key().to_owned(),
            modifiers,
            description: command.as_str().to_owned(),
        }
    }
}

} // verus!
