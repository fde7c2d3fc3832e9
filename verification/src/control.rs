//! The keys that a player presses and the five commands they stand for.

use vstd::prelude::*;

verus! {

/// A key as the game tells keys apart.
#[derive(Clone, Copy, PartialEq, Eq, Structural, Debug)]
pub enum Key {
    Char(char),
    Left,
    Right,
    Down,
    Up,
    Other,
}

/// What a player can ask of the game.
#[derive(Clone, Copy, PartialEq, Eq, Structural, Debug)]
pub enum Command {
    Quit,
    MoveLeft,
    MoveRight,
    SoftDrop,
    Rotate,
}

/// The command that each key stands for, if it stands for one.
pub open spec fn key_command(key: Key) -> Option<Command> {
    match key {
        Key::Char(c) => if c == 'q' {
            Some(Command::Quit)
        } else {
            None
        },
        Key::Left => Some(Command::MoveLeft),
        Key::Right => Some(Command::MoveRight),
        Key::Down => Some(Command::SoftDrop),
        Key::Up => Some(Command::Rotate),
        Key::Other => None,
    }
}

/// The command that `key` stands for; `None` for a key that
/// stands for none.
pub fn command_for_key(key: Key) -> (command: Option<Command>)
    ensures
        command == key_command(key),
{
    match key {
        Key::Char(c) => if c == 'q' {
            Some(Command::Quit)
        } else {
            None
        },
        Key::Left => Some(Command::MoveLeft),
        Key::Right => Some(Command::MoveRight),
        Key::Down => Some(Command::SoftDrop),
        Key::Up => Some(Command::Rotate),
        Key::Other => None,
    }
}

} // verus!
