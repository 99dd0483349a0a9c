//! Camera movement commands.

use vstd::prelude::*;

verus! {

/// Directions in which the camera moves.
#[derive(Debug, Clone, Copy, PartialEq, Eq, Structural)]
pub enum MoveDirection {
    Forward,
    Backward,
    Left,
    Right,
    Up,
    Down,
}

/// Directions in which the camera turns.
#[derive(Debug, Clone, Copy, PartialEq, Eq, Structural)]
pub enum RotationDirection {
    Left,
    Right,
}

/// Axes of the camera that movement follows.
#[derive(Debug, Clone, Copy, PartialEq, Eq, Structural)]
pub enum Axis {
    /// Unit vector from the position toward the look-at target.
    Look,
    /// The up vector crossed with the look axis: it points to the camera's left.
    Side,
    /// The camera's up vector.
    Up,
}

/// How a command moves the camera: by one step along `axis`, forward if `positive`
/// and backward otherwise. The look-at target always moves; the position moves too
/// unless the command only turns the camera.
#[derive(Debug, Clone, Copy, PartialEq, Eq, Structural)]
pub struct Motion {
    pub axis: Axis,
    pub positive: bool,
    pub moves_position: bool,
}

/// The motion of a move in direction `dir`: position and target shift together.
pub open spec fn spec_move_motion(dir: MoveDirection) -> Motion {
    let (axis, positive) = match dir {
        MoveDirection::Forward => (Axis::Look, true),
        MoveDirection::Backward => (Axis::Look, false),
        MoveDirection::Left => (Axis::Side, true),
        MoveDirection::Right => (Axis::Side, false),
        MoveDirection::Up => (Axis::Up, true),
        MoveDirection::Down => (Axis::Up, false),
    };
    Motion { axis, positive, moves_position: true }
}

/// The motion of a turn in direction `dir`: only the target shifts, sideways.
pub open spec fn spec_rotate_motion(dir: RotationDirection) -> Motion {
    Motion { axis: Axis::Side, positive: dir is Left, moves_position: false }
}

/// Looks up the motion of a move.
pub fn move_motion(dir: MoveDirection) -> (m: Motion)
    ensures
        m == spec_move_motion(dir),
{
    let (axis, positive) = match dir {
        MoveDirection::Forward => (Axis::Look, true),
        MoveDirection::Backward => (Axis::Look, false),
        MoveDirection::Left => (Axis::Side, true),
        MoveDirection::Right => (Axis::Side, false),
        MoveDirection::Up => (Axis::Up, true),
        MoveDirection::Down => (Axis::Up, false),
    };
    Motion { axis, positive, moves_position: true }
}

/// Looks up the motion of a turn.
pub fn rotate_motion(dir: RotationDirection) -> (m: Motion)
    ensures
        m == spec_rotate_motion(dir),
{
    let positive = match dir {
        RotationDirection::Left => true,
        RotationDirection::Right => false,
    };
    Motion { axis: Axis::Side, positive, moves_position: false }
}

/// Opposite moves follow the same axis in opposite senses, so one step of each
/// cancels out, up to rounding.
pub proof fn lemma_opposite_moves(dir: MoveDirection)
    ensures
        ({
            let opposite = match dir {
                MoveDirection::Forward => MoveDirection::Backward,
                MoveDirection::Backward => MoveDirection::Forward,
                MoveDirection::Left => MoveDirection::Right,
                MoveDirection::Right => MoveDirection::Left,
                MoveDirection::Up => MoveDirection::Down,
                MoveDirection::Down => MoveDirection::Up,
            };
            &&& spec_move_motion(opposite).axis == spec_move_motion(dir).axis
            &&& spec_move_motion(opposite).positive != spec_move_motion(dir).positive
        }),
{
}

} // verus!
