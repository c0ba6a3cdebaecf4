use rustlabs::motion::{Input, Step, SPEED};

fn keys(up: bool, down: bool, left: bool, right: bool) -> Input {
    Input::new(up, down, left, right)
}

#[test]
fn no_key_gives_zero_direction() {
    assert_eq!(keys(false, false, false, false).direction(), Step { x: 0, y: 0 });
    assert_eq!(Input::default().velocity(), Step { x: 0, y: 0 });
}

#[test]
fn single_keys_move_one_unit() {
    assert_eq!(keys(true, false, false, false).direction(), Step { x: 0, y: -1 });
    assert_eq!(keys(false, true, false, false).direction(), Step { x: 0, y: 1 });
    assert_eq!(keys(false, false, true, false).direction(), Step { x: -1, y: 0 });
    assert_eq!(keys(false, false, false, true).direction(), Step { x: 1, y: 0 });
}

#[test]
fn opposing_keys_cancel() {
    assert_eq!(keys(true, true, false, false).direction(), Step { x: 0, y: 0 });
    assert_eq!(keys(false, false, true, true).direction(), Step { x: 0, y: 0 });
    assert_eq!(keys(true, true, false, true).direction(), Step { x: 1, y: 0 });
    assert_eq!(keys(true, true, true, true).direction(), Step { x: 0, y: 0 });
}

#[test]
fn diagonal_is_not_normalised() {
    assert_eq!(keys(true, false, false, true).direction(), Step { x: 1, y: -1 });
    assert_eq!(keys(false, true, true, false).velocity(), Step { x: -200, y: 200 });
}

#[test]
fn every_combination_is_deterministic_and_unit_per_axis() {
    for bits in 0u8..16 {
        let input = keys(bits & 1 != 0, bits & 2 != 0, bits & 4 != 0, bits & 8 != 0);
        let d = input.direction();
        assert_eq!(d, input.direction());
        assert!(d.x.abs() <= 1 && d.y.abs() <= 1);
        let expected_x = (input.right as i32) - (input.left as i32);
        let expected_y = (input.down as i32) - (input.up as i32);
        assert_eq!(d, Step { x: expected_x, y: expected_y });
        assert_eq!(input.velocity(), Step { x: SPEED * d.x, y: SPEED * d.y });
    }
}

#[test]
fn right_key_gives_speed_along_x() {
    let v = keys(false, false, false, true).velocity();
    assert_eq!(SPEED, 200);
    assert_eq!(v, Step { x: 200, y: 0 });
    // one second at this velocity from the origin
    assert_eq!((0 + v.x * 1, 0 + v.y * 1), (200, 0));
}
