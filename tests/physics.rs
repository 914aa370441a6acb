use flap_2_earn::entity::{Entity, EntityKind};
use flap_2_earn::player::Player;

#[test]
fn new_player_rests_at_start() {
    let p = Player::new(5, 25);
    assert_eq!(p.x, 5);
    assert_eq!(p.y, 125);
    assert_eq!(p.velocity, 0);
    assert_eq!(p.frame, 0);
    assert_eq!(p.row(), 25);
}

#[test]
fn gravity_adds_a_fifth_per_step_up_to_the_cap() {
    let mut p = Player::new(5, 25);
    p.gravity_and_move();
    assert_eq!(p.velocity, 1);
    assert_eq!(p.y, 126);
    assert_eq!(p.frame, 1);
    for _ in 0..20 {
        p.gravity_and_move();
        assert!(p.velocity <= 10);
    }
    assert_eq!(p.velocity, 10);
}

#[test]
fn gravity_stops_adding_at_the_cap() {
    let mut p = Player { x: 5, y: 100, velocity: 10, frame: 0 };
    p.gravity_and_move();
    assert_eq!(p.velocity, 10);
    assert_eq!(p.y, 110);
}

#[test]
fn animation_frame_wraps_after_six_steps() {
    let mut p = Player { x: 5, y: 100, velocity: 0, frame: 5 };
    p.gravity_and_move();
    assert_eq!(p.frame, 0);
}

#[test]
fn flap_slows_a_falling_player() {
    let mut p = Player { x: 5, y: 100, velocity: 4, frame: 0 };
    p.flap();
    assert_eq!(p.velocity, -6);
    assert_eq!(p.y, 100);
}

#[test]
fn flap_does_nothing_while_rising() {
    let mut p = Player { x: 5, y: 100, velocity: -3, frame: 0 };
    p.flap();
    assert_eq!(p.velocity, -3);
    let mut q = Player { x: 5, y: 100, velocity: 0, frame: 0 };
    q.flap();
    assert_eq!(q.velocity, 0);
}

#[test]
fn height_is_floored_at_the_top_row() {
    let mut p = Player { x: 5, y: 2, velocity: -10, frame: 0 };
    p.gravity_and_move();
    assert_eq!(p.velocity, -9);
    assert_eq!(p.y, 0);
}

#[test]
fn obstacle_hit_at_same_cell_and_miss_three_below() {
    let p = Player::new(5, 25);
    assert!(Entity::new(EntityKind::Obstacle, 5, 25).hit(&p));
    assert!(!Entity::new(EntityKind::Obstacle, 5, 28).hit(&p));
}

#[test]
fn obstacle_reach_is_strictly_below_two_cells() {
    let p = Player::new(5, 25);
    assert!(Entity::new(EntityKind::Obstacle, 6, 26).hit(&p));
    assert!(!Entity::new(EntityKind::Obstacle, 5, 27).hit(&p));
    assert!(!Entity::new(EntityKind::Obstacle, 7, 25).hit(&p));
}

#[test]
fn collectible_reach_is_strictly_below_one_and_a_half_cells() {
    let p = Player::new(5, 25);
    assert!(Entity::new(EntityKind::Collectible, 6, 26).hit(&p));
    assert!(!Entity::new(EntityKind::Collectible, 5, 27).hit(&p));
    assert!(Entity::new(EntityKind::Obstacle, 5, 26).hit(&p));
    assert!(Entity::new(EntityKind::Collectible, 5, 26).hit(&p));
}

#[test]
fn hit_uses_the_fractional_height() {
    // 25.4 cells is 1.6 cells above row 27: within an obstacle's reach, not
    // a collectible's.
    let p = Player { x: 5, y: 127, velocity: 0, frame: 0 };
    assert!(Entity::new(EntityKind::Obstacle, 5, 27).hit(&p));
    assert!(!Entity::new(EntityKind::Collectible, 5, 27).hit(&p));
}

#[test]
fn entity_drifts_left_and_expires_at_the_boundary() {
    let mut e = Entity::new(EntityKind::Obstacle, 2, 10);
    assert!(!e.drift());
    assert_eq!(e.x, 1);
    assert!(e.active);
    assert!(e.drift());
    assert_eq!(e.x, 0);
    assert!(!e.active);
    assert!(!e.drift());
    assert_eq!(e.x, 0);
}
