use bubbles::bubble::{Bubble, Point, UNITS_PER_PIXEL};
use bubbles::level::{
    Level, DRIFT_HIGH, DRIFT_LOW, RADIUS_HIGH, RADIUS_LOW, SPEED_HIGH, SPEED_LOW, SPREAD,
};

const W: i64 = 640 * UNITS_PER_PIXEL;
const H: i64 = 480 * UNITS_PER_PIXEL;

fn all_inside(level: &Level) -> bool {
    level.bubbles().iter().all(|b| {
        b.location.x > 0
            && b.location.x + b.radius < level.width()
            && b.location.y > 0
            && b.location.y + b.radius < level.height()
    })
}

#[test]
fn point_new_stores_coordinates() {
    let p = Point::new(-3, 7);
    assert_eq!(p.x, -3);
    assert_eq!(p.y, 7);
}

#[test]
fn bubble_new_stores_fields() {
    let b = Bubble::new(10, 20, 30, 40, -50);
    assert_eq!(b.location, Point { x: 10, y: 20 });
    assert_eq!(b.radius, 30);
    assert_eq!(b.speed, 40);
    assert_eq!(b.direction, -50);
}

#[test]
fn rise_moves_up_by_speed_and_sideways_by_drift() {
    let mut b = Bubble::new(1000, 5000, 100, 300, -250);
    b.rise();
    assert_eq!(b.location.x, 750);
    assert_eq!(b.location.y, 4700);
    assert_eq!(b.radius, 100);
    assert_eq!(b.speed, 300);
    assert_eq!(b.direction, -250);
    b.rise();
    assert_eq!(b.location.x, 500);
    assert_eq!(b.location.y, 4400);
}

#[test]
fn new_level_is_empty() {
    let level = Level::new(W, H);
    assert_eq!(level.width(), W);
    assert_eq!(level.height(), H);
    assert!(level.bubbles().is_empty());
}

#[test]
fn place_bubble_sits_on_bottom_edge() {
    let mut level = Level::new(W, H);
    level.place_bubble(100_000, 200_000, 500, 300);
    assert_eq!(level.bubbles().len(), 1);
    let b = level.bubbles()[0];
    assert_eq!(b.location, Point { x: 200_000, y: H - 100_000 });
    assert_eq!(b.radius, 100_000);
    assert_eq!(b.speed, 500);
    assert_eq!(b.direction, 300);
}

#[test]
fn bubble_on_bottom_edge_survives_first_step() {
    // Flush with the bottom edge it is outside before moving and inside after.
    let mut level = Level::new(W, H);
    level.place_bubble(100_000, 200_000, 500, 0);
    level.update();
    assert_eq!(level.bubbles().len(), 1);
    assert_eq!(level.bubbles()[0].location.y, H - 100_000 - 500);
}

#[test]
fn bubble_moving_onto_left_edge_is_removed_in_the_same_step() {
    let mut level = Level::new(W, H);
    level.place_bubble(100_000, 2000, 500, -1000);
    level.update();
    assert_eq!(level.bubbles().len(), 1);
    assert_eq!(level.bubbles()[0].location.x, 1000);
    // Inside before this step, on the edge after it.
    level.update();
    assert!(level.bubbles().is_empty());
}

#[test]
fn bubble_moving_onto_top_edge_is_removed() {
    let mut level = Level::new(W, H);
    // Starts at y == H - r; a speed of H - r brings it to y == 0.
    level.place_bubble(100_000, 200_000, H - 100_000, 0);
    level.update();
    assert!(level.bubbles().is_empty());
}

#[test]
fn bubble_reaching_right_edge_is_removed() {
    let mut level = Level::new(W, H);
    level.place_bubble(100_000, W - 100_000 - 700, 500, 700);
    level.update();
    assert!(level.bubbles().is_empty());
}

#[test]
fn each_bubble_moves_once_per_step() {
    let mut level = Level::new(W, H);
    level.place_bubble(50_000, 100_000, 200, 100);
    level.place_bubble(80_000, 300_000, 700, -400);
    level.place_bubble(150_000, 250_000, 999, 0);
    let before: Vec<Bubble> = level.bubbles().clone();
    level.update();
    let after = level.bubbles();
    assert_eq!(after.len(), 3);
    for (b, a) in before.iter().zip(after.iter()) {
        assert_eq!(a.location.y, b.location.y - b.speed);
        assert_eq!(a.location.x, b.location.x + b.direction);
        assert_eq!(a.radius, b.radius);
    }
}

#[test]
fn update_keeps_order_of_survivors() {
    let mut level = Level::new(W, H);
    level.place_bubble(50_000, 100_000, 200, 0);
    level.place_bubble(50_000, 1000, 200, -1000);
    level.place_bubble(60_000, 300_000, 300, 0);
    level.update();
    let after = level.bubbles();
    assert_eq!(after.len(), 2);
    assert_eq!(after[0].radius, 50_000);
    assert_eq!(after[1].radius, 60_000);
}

#[test]
fn update_on_empty_level_stays_empty() {
    let mut level = Level::new(W, H);
    level.update();
    assert!(level.bubbles().is_empty());
    level.update();
    assert!(level.bubbles().is_empty());
    assert_eq!(level.width(), W);
    assert_eq!(level.height(), H);
}

#[test]
fn spawned_bubbles_stay_in_their_ranges() {
    let mut level = Level::new(W, H);
    for _ in 0..500 {
        level.add_bubble();
    }
    assert_eq!(level.bubbles().len(), 500);
    for b in level.bubbles() {
        assert!(RADIUS_LOW <= b.radius && b.radius < RADIUS_HIGH);
        assert!(SPEED_LOW <= b.speed && b.speed < SPEED_HIGH);
        assert!(DRIFT_LOW <= b.direction && b.direction < DRIFT_HIGH);
        assert_eq!(b.location.y, H - b.radius);
        let center = W / 2 - b.radius / 2;
        assert!(center - SPREAD <= b.location.x && b.location.x < center + SPREAD);
    }
}

#[test]
fn spawned_values_vary() {
    let mut level = Level::new(W, H);
    for _ in 0..200 {
        level.add_bubble();
    }
    let first = level.bubbles()[0];
    assert!(level.bubbles().iter().any(|b| b.radius != first.radius));
    assert!(level.bubbles().iter().any(|b| b.speed != first.speed));
    assert!(level.bubbles().iter().any(|b| b.direction != first.direction));
    assert!(level.bubbles().iter().any(|b| b.radius != RADIUS_LOW));
}

#[test]
fn spawn_range_exact_values() {
    assert_eq!(RADIUS_LOW, 50 * UNITS_PER_PIXEL);
    assert_eq!(RADIUS_HIGH, 200 * UNITS_PER_PIXEL);
    assert_eq!(SPREAD, 100 * UNITS_PER_PIXEL);
    assert_eq!(SPEED_LOW, 200);
    assert_eq!(SPEED_HIGH, UNITS_PER_PIXEL);
    assert_eq!(DRIFT_LOW, -UNITS_PER_PIXEL);
    assert_eq!(DRIFT_HIGH, UNITS_PER_PIXEL);
}

#[test]
fn bubbles_stay_inside_after_every_step() {
    let mut level = Level::new(W, H);
    for round in 0..300 {
        if round % 7 == 0 {
            level.add_bubble();
        }
        if round % 11 == 0 {
            level.add_bubble();
        }
        level.update();
        assert!(all_inside(&level));
    }
}

#[test]
fn narrow_level_culls_oversized_bubbles() {
    // Every spawned bubble is wider than this viewport.
    let mut level = Level::new(40 * UNITS_PER_PIXEL, H);
    for _ in 0..20 {
        level.add_bubble();
    }
    level.update();
    assert!(level.bubbles().is_empty());
}
