use raytrascii::trace::{after_cast, casts, Outcome, Step};

#[test]
fn depth_zero_is_black() {
    assert!(!casts(0));
    assert!(casts(1));
}

#[test]
fn outcomes_decide_next_step() {
    assert_eq!(after_cast(5, Outcome::Missed), Step::Background);
    assert_eq!(after_cast(5, Outcome::Absorbed), Step::Black);
    assert_eq!(after_cast(5, Outcome::Scattered), Step::Bounce(4));
    assert_eq!(after_cast(1, Outcome::Scattered), Step::Bounce(0));
}

#[test]
fn scattering_forever_stops_at_max_depth() {
    let max_depth = 15usize;
    let mut depth = max_depth;
    let mut cast = 0usize;
    while casts(depth) {
        cast += 1;
        match after_cast(depth, Outcome::Scattered) {
            Step::Bounce(d) => depth = d,
            other => panic!("unexpected step {:?}", other),
        }
    }
    assert_eq!(cast, max_depth);
}
