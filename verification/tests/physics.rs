//! Tests of the craft's momentum model: thrust saturation, gravity ceiling,
//! drag dead-zone, and the integration step.

use rust_rover::character::Character;
use rust_rover::character::Direction;

#[test]
fn thrust_up_saturates_at_floor() {
    // 1000 is a whole number of 500-impulses above the floor -1000, so the
    // momentum lands exactly on the floor and stays there.
    let mut craft = Character::new(40000, 25000);
    craft.thrust(Direction::Up, 500, 1000);
    assert_eq!(craft.momentum.vertical, -500);
    craft.thrust(Direction::Up, 500, 1000);
    assert_eq!(craft.momentum.vertical, -1000);
    for _ in 0..10 {
        craft.thrust(Direction::Up, 500, 1000);
        assert!(craft.momentum.vertical >= -1000);
    }
    assert_eq!(craft.momentum.vertical, -1000);
}

#[test]
fn thrust_up_can_overshoot_by_less_than_one_impulse() {
    // With the play impulse of 420 the floor -1000 is overshot once, but
    // never by a full impulse, and the momentum then freezes.
    let mut craft = Character::new(40000, 25000);
    for _ in 0..10 {
        craft.thrust(Direction::Up, 420, 1000);
        assert!(craft.momentum.vertical > -1000 - 420);
    }
    assert_eq!(craft.momentum.vertical, -1260);
}

#[test]
fn thrust_sideways_is_bounded() {
    let mut craft = Character::new(40000, 25000);
    for _ in 0..10 {
        craft.thrust(Direction::Right, 300, 1000);
        assert!(craft.momentum.horizontal <= 1000 + 300);
    }
    assert_eq!(craft.momentum.horizontal, 1200);
    for _ in 0..20 {
        craft.thrust(Direction::Left, 300, 1000);
        assert!(craft.momentum.horizontal >= -1000 - 300);
    }
    assert_eq!(craft.momentum.horizontal, -1200);
    // At the bound the impulse is a no-op.
    craft.thrust(Direction::Left, 300, 1000);
    assert_eq!(craft.momentum.horizontal, -1200);
}

#[test]
fn thrust_touches_only_its_axis() {
    let mut craft = Character::new(40000, 25000);
    craft.thrust(Direction::Up, 420, 1000);
    assert_eq!(craft.momentum.horizontal, 0);
    assert_eq!(craft.coordinate.x, 40000);
    assert_eq!(craft.coordinate.y, 25000);
    craft.thrust(Direction::Right, 300, 1000);
    assert_eq!(craft.momentum.vertical, -420);
}

#[test]
fn gravity_acts_as_ceiling() {
    // Above the terminal velocity the momentum is clamped down to it.
    let mut craft = Character::new(40000, 25000);
    craft.momentum.vertical = 900;
    craft.apply_gravity_and_drag(400, 200);
    assert_eq!(craft.momentum.vertical, 400);
}

#[test]
fn gravity_recovers_by_its_own_increment() {
    // Below the terminal velocity the recovery step is the gravity
    // constant itself.
    let mut craft = Character::new(40000, 25000);
    craft.momentum.vertical = -1200;
    craft.apply_gravity_and_drag(400, 200);
    assert_eq!(craft.momentum.vertical, -800);
    craft.apply_gravity_and_drag(400, 200);
    assert_eq!(craft.momentum.vertical, -400);
}

#[test]
fn drag_dead_zone_snaps_to_rest() {
    // 240 drops to 40 after the drag step, inside the dead-zone, so the
    // momentum snaps to exactly zero.
    let mut craft = Character::new(40000, 25000);
    craft.momentum.horizontal = 240;
    craft.apply_gravity_and_drag(400, 200);
    assert_eq!(craft.momentum.horizontal, 0);

    craft.momentum.horizontal = -230;
    craft.apply_gravity_and_drag(400, 200);
    assert_eq!(craft.momentum.horizontal, 0);
}

#[test]
fn drag_outside_dead_zone_keeps_momentum() {
    let mut craft = Character::new(40000, 25000);
    craft.momentum.horizontal = 260;
    craft.apply_gravity_and_drag(400, 200);
    assert_eq!(craft.momentum.horizontal, 60);

    craft.momentum.horizontal = -900;
    craft.apply_gravity_and_drag(400, 200);
    assert_eq!(craft.momentum.horizontal, -700);
}

#[test]
fn first_step_from_rest() {
    // One gravity/drag step from rest, then one integration: the vertical
    // momentum is exactly the gravity constant and the position has moved
    // down by it.
    let mut craft = Character::new(40000, 25000);
    craft.apply_gravity_and_drag(400, 200);
    assert_eq!(craft.momentum.vertical, 400);
    assert_eq!(craft.momentum.horizontal, 0);
    craft.apply_momentum();
    assert_eq!(craft.coordinate.y, 25400);
    assert_eq!(craft.coordinate.x, 40000);
}

#[test]
fn apply_momentum_adds_both_axes() {
    let mut craft = Character::new(10000, 20000);
    craft.momentum.vertical = -300;
    craft.momentum.horizontal = 150;
    craft.apply_momentum();
    assert_eq!(craft.coordinate.x, 10150);
    assert_eq!(craft.coordinate.y, 19700);
    assert_eq!(craft.momentum.vertical, -300);
    assert_eq!(craft.momentum.horizontal, 150);
}
