use player_motion::controller::Controller;
use player_motion::player::{Player, PlayerState};
use player_motion::sensing::{
    edge_grab_detection, edge_grab_rays, facing_direction, ground_detection, ground_rays,
    wall_detection, wall_ray, Ray, CLEARANCE_HEIGHT, FOOT_OFFSET, GROUND_REACH, HEAD_HEIGHT,
    WALL_REACH,
};
use player_motion::units::{Direction, Vector, SUBUNITS};

fn holding(x: i8) -> Controller {
    Controller { direction: Direction { x, y: 0 }, ..Controller::new() }
}

#[test]
fn new_player_is_idle_and_faces_right() {
    let p = Player::new();
    assert_eq!(p.state, PlayerState::Idle);
    assert_eq!(p.previous_state, PlayerState::Idle);
    assert_eq!(p.facing_direction, Direction { x: 1, y: 0 });
    assert_eq!(p.jump_count, 0);
    assert!(p.can_jump());
}

#[test]
fn facing_follows_held_direction() {
    let mut p = Player::new();
    facing_direction(&holding(-1), &mut p);
    assert_eq!(p.facing_direction, Direction { x: -1, y: 0 });
    facing_direction(&holding(1), &mut p);
    assert_eq!(p.facing_direction, Direction { x: 1, y: 0 });
}

#[test]
fn facing_persists_without_input() {
    let mut p = Player::new();
    facing_direction(&holding(-1), &mut p);
    facing_direction(&holding(0), &mut p);
    assert_eq!(p.facing_direction, Direction { x: -1, y: 0 });
}

#[test]
fn facing_ignores_vertical_input_and_keeps_the_rest() {
    let mut p = Player { state: PlayerState::InAir, previous_state: PlayerState::Running, jump_count: 1, ..Player::new() };
    let c = Controller { direction: Direction { x: 0, y: 1 }, ..Controller::new() };
    facing_direction(&c, &mut p);
    assert_eq!(
        p,
        Player { state: PlayerState::InAir, previous_state: PlayerState::Running, jump_count: 1, ..Player::new() }
    );
}

#[test]
fn sensing_lengths_in_world_units() {
    assert_eq!(SUBUNITS, 1_000);
    assert_eq!(FOOT_OFFSET, 4 * SUBUNITS);
    assert_eq!(GROUND_REACH * 10, 21 * 16 * SUBUNITS);
    assert_eq!(WALL_REACH * 10, 12 * 16 * SUBUNITS);
    assert_eq!(HEAD_HEIGHT, 16 * SUBUNITS);
    assert_eq!(CLEARANCE_HEIGHT, 24 * SUBUNITS);
}

#[test]
fn ground_rays_point_down_from_both_feet() {
    let down = Direction { x: 0, y: -1 };
    assert_eq!(
        ground_rays(),
        [
            Ray { offset: Vector { x: -4_000, y: 0 }, direction: down, reach: 33_600 },
            Ray { offset: Vector { x: 4_000, y: 0 }, direction: down, reach: 33_600 },
        ]
    );
}

#[test]
fn grounded_when_either_foot_hits() {
    assert!(!ground_detection(false, false).0);
    assert!(ground_detection(true, false).0);
    assert!(ground_detection(false, true).0);
    assert!(ground_detection(true, true).0);
}

#[test]
fn wall_ray_points_where_the_player_faces() {
    let mut p = Player::new();
    assert_eq!(
        wall_ray(&p),
        Ray { offset: Vector { x: 0, y: 0 }, direction: Direction { x: 1, y: 0 }, reach: 19_200 }
    );
    facing_direction(&holding(-1), &mut p);
    assert_eq!(wall_ray(&p).direction, Direction { x: -1, y: 0 });
}

#[test]
fn on_wall_when_the_ray_hits() {
    assert!(wall_detection(true).0);
    assert!(!wall_detection(false).0);
}

#[test]
fn edge_rays_at_chest_head_and_above() {
    let mut p = Player::new();
    facing_direction(&holding(-1), &mut p);
    let left = Direction { x: -1, y: 0 };
    assert_eq!(
        edge_grab_rays(&p),
        [
            Ray { offset: Vector { x: 0, y: 0 }, direction: left, reach: 19_200 },
            Ray { offset: Vector { x: 0, y: 16_000 }, direction: left, reach: 19_200 },
            Ray { offset: Vector { x: 0, y: 24_000 }, direction: left, reach: 19_200 },
        ]
    );
}

#[test]
fn edge_needs_a_hit_below_and_clearance_above() {
    assert!(edge_grab_detection(true, false, false).0);
    assert!(edge_grab_detection(false, true, false).0);
    assert!(edge_grab_detection(true, true, false).0);
    assert!(!edge_grab_detection(false, false, false).0);
}

#[test]
fn hit_above_the_head_means_wall_not_edge() {
    assert!(!edge_grab_detection(true, false, true).0);
    assert!(!edge_grab_detection(false, true, true).0);
    assert!(!edge_grab_detection(true, true, true).0);
    assert!(!edge_grab_detection(false, false, true).0);
}
