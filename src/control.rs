//! Decisions of the interactive loop: which camera command a key press asks for.

use vstd::prelude::*;

use crate::camera::{MoveDirection, RotationDirection};

verus! {

/// The keys that the interactive loop tells apart.
#[derive(Debug, Clone, Copy, PartialEq, Eq, Structural)]
pub enum Key {
    Esc,
    Up,
    Down,
    Left,
    Right,
    Other,
}

/// What a key press asks of the loop.
#[derive(Debug, Clone, Copy, PartialEq, Eq, Structural)]
pub enum Command {
    Exit,
    Move(MoveDirection),
    Rotate(RotationDirection),
}

/// The command for a key, with or without the control modifier held.
///
/// Up and Down move forward and backward, or up and down with control held;
/// Left and Right move sideways, or turn the camera with control held;
/// Esc leaves the loop; any other key asks for nothing.
pub open spec fn key_command(key: Key, ctrl: bool) -> Option<Command> {
    match key {
        Key::Esc => Some(Command::Exit),
        Key::Up => Some(Command::Move(if ctrl { MoveDirection::Up } else { MoveDirection::Forward })),
        Key::Down => Some(
            Command::Move(if ctrl { MoveDirection::Down } else { MoveDirection::Backward }),
        ),
        Key::Left => Some(
            if ctrl {
                Command::Rotate(RotationDirection::Left)
            } else {
                Command::Move(MoveDirection::Left)
            },
        ),
        Key::Right => Some(
            if ctrl {
                Command::Rotate(RotationDirection::Right)
            } else {
                Command::Move(MoveDirection::Right)
            },
        ),
        Key::Other => None,
    }
}

/// Decides the command for a key press.
pub fn command_for_key(key: Key, ctrl: bool) -> (c: Option<Command>)
    ensures
        c == key_command(key, ctrl),
{
    match key {
        Key::Esc => Some(Command::Exit),
        Key::Up => {
            if ctrl {
                Some(Command::Move(MoveDirection::Up))
            } else {
                Some(Command::Move(MoveDirection::Forward))
            }
        },
        Key::Down => {
            if ctrl {
                Some(Command::Move(MoveDirection::Down))
            } else {
                Some(Command::Move(MoveDirection::Backward))
            }
        },
        Key::Left => {
            if ctrl {
                Some(Command::Rotate(RotationDirection::Left))
            } else {
                Some(Command::Move(MoveDirection::Left))
            }
        },
        Key::Right => {
            if ctrl {
                Some(Command::Rotate(RotationDirection::Right))
            } else {
                Some(Command::Move(MoveDirection::Right))
            }
        },
        Key::Other => None,
    }
}

} // verus!
