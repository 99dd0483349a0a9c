use raytrascii::camera::{move_motion, rotate_motion, Axis, Motion, MoveDirection, RotationDirection};

fn motion(axis: Axis, positive: bool, moves_position: bool) -> Motion {
    Motion { axis, positive, moves_position }
}

#[test]
fn moves_shift_position_and_target() {
    assert_eq!(move_motion(MoveDirection::Forward), motion(Axis::Look, true, true));
    assert_eq!(move_motion(MoveDirection::Backward), motion(Axis::Look, false, true));
    assert_eq!(move_motion(MoveDirection::Left), motion(Axis::Side, true, true));
    assert_eq!(move_motion(MoveDirection::Right), motion(Axis::Side, false, true));
    assert_eq!(move_motion(MoveDirection::Up), motion(Axis::Up, true, true));
    assert_eq!(move_motion(MoveDirection::Down), motion(Axis::Up, false, true));
}

#[test]
fn turns_shift_target_only() {
    assert_eq!(rotate_motion(RotationDirection::Left), motion(Axis::Side, true, false));
    assert_eq!(rotate_motion(RotationDirection::Right), motion(Axis::Side, false, false));
}
