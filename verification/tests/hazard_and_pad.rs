//! Tests of the hazard entity and the landing pad: randomized ranges,
//! motion, course detection, the radius-only collision test, and the
//! landing test.

use rust_rover::character::Character;
use rust_rover::hazards::Asteroid;
use rust_rover::map::LandingPad;
use rust_rover::Position;

fn plain_asteroid(x: i64, y: i64, scale: i64) -> Asteroid {
    Asteroid { coordinate: Position { x, y }, trajectory: 90000, orientation: 0, scale, speed: 300 }
}

#[test]
fn new_asteroid_draws_its_ranges() {
    for _ in 0..20 {
        let hazard = Asteroid::new(1234, 0);
        assert_eq!(hazard.coordinate.x, 1234);
        assert_eq!(hazard.coordinate.y, 0);
        assert_eq!(hazard.orientation, 0);
        assert!(2000 <= hazard.scale && hazard.scale < 4000);
        assert!(200 <= hazard.speed && hazard.speed < 600);
        assert!(89700 <= hazard.trajectory && hazard.trajectory < 90300);
    }
}

#[test]
fn vertical_asteroid_falls_straight() {
    let mut hazard = plain_asteroid(5000, 0, 2000);
    hazard.speed = 500;
    hazard.update();
    assert_eq!(hazard.coordinate.x, 5000);
    assert_eq!(hazard.coordinate.y, 500);
    assert_eq!(hazard.orientation, 200);
    hazard.update();
    assert_eq!(hazard.coordinate.y, 1000);
    assert_eq!(hazard.orientation, 400);
}

#[test]
fn tilted_asteroid_drifts() {
    // 0.3 degrees short of vertical drifts right: 500 * 300 * 17453 / 1e9
    // truncates to 2 milli-cells per step.
    let mut hazard = plain_asteroid(5000, 0, 2000);
    hazard.trajectory = 89700;
    hazard.speed = 500;
    hazard.update();
    assert_eq!(hazard.coordinate.x, 5002);
    assert_eq!(hazard.coordinate.y, 500);

    // Past vertical drifts left by the mirrored amount.
    let mut other = plain_asteroid(5000, 0, 2000);
    other.trajectory = 90299;
    other.speed = 500;
    other.update();
    assert_eq!(other.coordinate.x, 4998);
}

#[test]
fn course_finished_only_out_of_bounds() {
    let inside = plain_asteroid(40000, 25000, 2000);
    assert!(!inside.check_finished_course(80, 50));

    let left = plain_asteroid(-1, 25000, 2000);
    assert!(left.check_finished_course(80, 50));

    let right = plain_asteroid(80001, 25000, 2000);
    assert!(right.check_finished_course(80, 50));

    let below = plain_asteroid(40000, 50001, 2000);
    assert!(below.check_finished_course(80, 50));

    // The boundary itself is still in: the checks are strict.
    let on_edge = plain_asteroid(80000, 50000, 2000);
    assert!(!on_edge.check_finished_course(80, 50));

    // The top edge is never checked.
    let above = plain_asteroid(40000, -5000, 2000);
    assert!(!above.check_finished_course(80, 50));
}

#[test]
fn collision_is_radius_only() {
    // A hazard of diameter 4 cells has an effective radius of 2: a craft
    // 1.9 cells away collides, one 2.1 cells away does not. The craft's
    // own size never enters the test.
    let hazard = plain_asteroid(10000, 10000, 4000);
    let near = Character::new(10000 + 1900, 10000);
    assert!(hazard.check_collision(&near));
    let far = Character::new(10000 + 2100, 10000);
    assert!(!hazard.check_collision(&far));
}

#[test]
fn collision_uses_euclidean_distance() {
    // 3-4-5 triangle: distance 0.5 cells against a radius of 1 cell.
    let hazard = plain_asteroid(10000, 10000, 2000);
    let near = Character::new(10300, 10400);
    assert!(hazard.check_collision(&near));
    // Distance 2.5 cells is out.
    let far = Character::new(11500, 12000);
    assert!(!hazard.check_collision(&far));
}

#[test]
fn new_pad_draws_its_ranges() {
    for _ in 0..20 {
        let pad = LandingPad::new(40);
        assert_eq!(pad.x, 40);
        assert_eq!(pad.y, 50);
        assert!(12 <= pad.height && pad.height < 25);
        assert!(3 <= pad.pad_width && pad.pad_width <= 11);
        assert_eq!(pad.pad_width % 2, 1);
    }
}

#[test]
fn landing_needs_the_surface_row_and_the_catch_interval() {
    let pad = LandingPad { x: 40, y: 50, height: 20, pad_width: 5 };

    // On the surface row (cell 30), inside the catch interval (37, 43).
    let on_pad = Character::new(40000, 30200);
    assert!(pad.check_landing(&on_pad));
    let on_edge_cell = Character::new(42900, 30999);
    assert!(pad.check_landing(&on_edge_cell));

    // The interval bounds are strict.
    let at_left_bound = Character::new(37000, 30200);
    assert!(!pad.check_landing(&at_left_bound));

    // One row off the surface.
    let above = Character::new(40000, 29999);
    assert!(!pad.check_landing(&above));
    let below = Character::new(40000, 31000);
    assert!(!pad.check_landing(&below));
}
