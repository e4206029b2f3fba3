//! Sensing of the character's surroundings.
//!
//! The crate casts no rays itself. It says which rays to cast, relative to
//! the character's centre, and turns the hits into the contact flags that the
//! state machine reads. Every ray leaves out the character's own body.

use vstd::prelude::*;
use crate::controller::Controller;
use crate::player::{EdgeGrab, Grounded, OnWall, Player};
use crate::units::{Direction, Vector};

verus! {

/// Sideways distance of each foot from the centre, in fixed-point steps.
pub const FOOT_OFFSET: i32 = 4_000;

/// Reach of the rays that look for the ground, in fixed-point steps.
pub const GROUND_REACH: i32 = 33_600;

/// Reach of the rays that look for a wall or a ledge, in fixed-point steps.
pub const WALL_REACH: i32 = 19_200;

/// Height of the head above the centre, in fixed-point steps.
pub const HEAD_HEIGHT: i32 = 16_000;

/// Height above the centre at which a wall must be absent for a ledge to be
/// grabbed, in fixed-point steps.
pub const CLEARANCE_HEIGHT: i32 = 24_000;

/// A ray to cast, given relative to the character's centre.
#[derive(Clone, Copy, Debug, PartialEq, Eq, Structural)]
pub struct Ray {
    /// Where the ray starts, as an offset from the centre.
    pub offset: Vector,
    /// The direction of the ray.
    pub direction: Direction,
    /// How far the ray reaches.
    pub reach: i32,
}

/// The direction faced after a step with `held` input: the side of the held
/// horizontal input, or the old direction when none is held.
pub open spec fn faced(facing: Direction, held: Direction) -> Direction {
    Direction {
        x: if held.x > 0 { 1i8 } else if held.x < 0 { -1i8 } else { facing.x },
        y: facing.y,
    }
}

/// Turns the character towards the held horizontal input. With no horizontal
/// input the character keeps facing where it did.
pub fn facing_direction(controller: &Controller, player: &mut Player)
    ensures
        final(player).facing_direction == faced(old(player).facing_direction, controller.direction),
        controller.wf() && controller.direction.x != 0
            ==> final(player).facing_direction.x == controller.direction.x,
        final(player).state == old(player).state,
        final(player).previous_state == old(player).previous_state,
        final(player).jump_count == old(player).jump_count,
        old(player).wf() ==> final(player).wf(),
{
    if controller.direction.x > 0 {
        player.facing_direction.x = 1;
    } else if controller.direction.x < 0 {
        player.facing_direction.x = -1;
    }
}

/// The ray that looks straight down from a foot that is `offset_x` to the
/// side of the centre.
pub open spec fn foot_ray(offset_x: i32) -> Ray {
    Ray {
        offset: Vector { x: offset_x, y: 0 },
        direction: Direction { x: 0i8, y: -1i8 },
        reach: GROUND_REACH,
    }
}

/// The ray that looks ahead from `height` above the centre.
pub open spec fn forward_ray(facing: Direction, height: i32) -> Ray {
    Ray { offset: Vector { x: 0, y: height }, direction: facing, reach: WALL_REACH }
}

/// The two rays that look for the ground: left foot first, then right foot.
pub fn ground_rays() -> (rays: [Ray; 2])
    ensures
        rays[0] == foot_ray((-FOOT_OFFSET) as i32),
        rays[1] == foot_ray(FOOT_OFFSET),
{
    let down = Direction { x: 0, y: -1 };
    [
        Ray { offset: Vector { x: -FOOT_OFFSET, y: 0 }, direction: down, reach: GROUND_REACH },
        Ray { offset: Vector { x: FOOT_OFFSET, y: 0 }, direction: down, reach: GROUND_REACH },
    ]
}

/// The character is grounded when either foot ray hits.
pub fn ground_detection(left_foot_hit: bool, right_foot_hit: bool) -> (grounded: Grounded)
    ensures
        grounded.0 == (left_foot_hit || right_foot_hit),
{
    Grounded(left_foot_hit || right_foot_hit)
}

/// The ray that looks for a wall: from the centre, in the facing direction.
pub fn wall_ray(player: &Player) -> (ray: Ray)
    ensures
        ray == forward_ray(player.facing_direction, 0),
{
    Ray { offset: Vector { x: 0, y: 0 }, direction: player.facing_direction, reach: WALL_REACH }
}

/// The character is on a wall when the wall ray hits.
pub fn wall_detection(wall_hit: bool) -> (on_wall: OnWall)
    ensures
        on_wall.0 == wall_hit,
{
    OnWall(wall_hit)
}

/// The three rays that look for a ledge, all in the facing direction: at
/// chest height, at head height, and the clearance ray above the head.
pub fn edge_grab_rays(player: &Player) -> (rays: [Ray; 3])
    ensures
        rays[0] == forward_ray(player.facing_direction, 0),
        rays[1] == forward_ray(player.facing_direction, HEAD_HEIGHT),
        rays[2] == forward_ray(player.facing_direction, CLEARANCE_HEIGHT),
{
    let facing = player.facing_direction;
    [
        Ray { offset: Vector { x: 0, y: 0 }, direction: facing, reach: WALL_REACH },
        Ray { offset: Vector { x: 0, y: HEAD_HEIGHT }, direction: facing, reach: WALL_REACH },
        Ray { offset: Vector { x: 0, y: CLEARANCE_HEIGHT }, direction: facing, reach: WALL_REACH },
    ]
}

/// A ledge can be grabbed when the chest or the head ray hits and the
/// clearance ray does not: a hit above the head means a full wall.
pub fn edge_grab_detection(chest_hit: bool, head_hit: bool, clearance_hit: bool) -> (edge_grab: EdgeGrab)
    ensures
        edge_grab.0 == ((chest_hit || head_hit) && !clearance_hit),
{
    EdgeGrab((chest_hit || head_hit) && !clearance_hit)
}

} // verus!
