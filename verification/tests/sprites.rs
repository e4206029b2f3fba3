use player_motion::player::{Player, PlayerState};
use player_motion::sprites::{
    animate_direction, animate_sprite, jump_particules, AnimationIndices, AnimationTimer,
    Emission, JumpParticulesTimer, FRAME_TIME, PARTICLE_DROP, PARTICLE_TIME, SPRITE_HOLD_IDX,
    SPRITE_IDLE_IDX, SPRITE_JUMP_IDX, SPRITE_RUN_IDX, SPRITE_WALK_IDX,
};
use player_motion::timer::Countdown;
use player_motion::units::{Direction, MILLISECOND};

fn in_state(state: PlayerState) -> Player {
    Player { state, previous_state: state, ..Player::new() }
}

/// Runs one step in which a frame is due and returns the new frame.
fn advance(state: PlayerState, index: usize) -> usize {
    let mut timer = AnimationTimer::new();
    let mut index = index;
    animate_sprite(FRAME_TIME, &mut timer, &mut index, &in_state(state));
    index
}

#[test]
fn frame_ranges() {
    assert_eq!(SPRITE_RUN_IDX, (0, 7));
    assert_eq!(SPRITE_WALK_IDX, (8, 15));
    assert_eq!(SPRITE_IDLE_IDX, (16, 23));
    assert_eq!(SPRITE_JUMP_IDX, (25, 26));
    assert_eq!(SPRITE_HOLD_IDX, SPRITE_WALK_IDX.0 + 5);
    assert_eq!(FRAME_TIME, 100 * MILLISECOND);
    assert_eq!(PARTICLE_TIME, 100 * MILLISECOND);
    assert_eq!(PARTICLE_DROP, 32_000);
    let run = AnimationIndices { first: SPRITE_RUN_IDX.0, last: SPRITE_RUN_IDX.1 };
    assert_eq!(run, AnimationIndices { first: 0, last: 7 });
}

#[test]
fn animation_timer_restarts_with_the_surplus() {
    let mut t = AnimationTimer::new();
    assert!(!t.tick(60 * MILLISECOND));
    assert_eq!(t.0, Countdown { elapsed: 60_000_000, duration: 100_000_000 });
    assert!(t.tick(60 * MILLISECOND));
    assert_eq!(t.0, Countdown { elapsed: 20_000_000, duration: 100_000_000 });
    assert!(t.tick(80 * MILLISECOND));
    assert_eq!(t.0.elapsed, 0);
    assert!(t.tick(250 * MILLISECOND));
    assert_eq!(t.0.elapsed, 50_000_000);
}

#[test]
fn animation_timer_copes_with_extremes() {
    let mut t = AnimationTimer(Countdown { elapsed: u64::MAX - 1, duration: u64::MAX });
    assert!(t.tick(u64::MAX));
    assert_eq!(t.0.elapsed, u64::MAX - 1);
    let mut zero = AnimationTimer(Countdown { elapsed: 5, duration: 0 });
    assert!(zero.tick(0));
    assert_eq!(zero.0, Countdown { elapsed: 0, duration: 0 });
}

#[test]
fn idle_animation_runs_round() {
    assert_eq!(advance(PlayerState::Idle, 0), 16);
    assert_eq!(advance(PlayerState::Idle, 16), 17);
    assert_eq!(advance(PlayerState::Idle, 22), 23);
    assert_eq!(advance(PlayerState::Idle, 23), 16);
    assert_eq!(advance(PlayerState::Idle, 26), 16);
}

#[test]
fn run_animation_runs_round() {
    assert_eq!(advance(PlayerState::Running, 0), 1);
    assert_eq!(advance(PlayerState::Running, 6), 7);
    assert_eq!(advance(PlayerState::Running, 7), 0);
    assert_eq!(advance(PlayerState::Running, 16), 0);
}

#[test]
fn jump_animation_stops_at_its_last_frame() {
    assert_eq!(advance(PlayerState::InAir, 3), 25);
    assert_eq!(advance(PlayerState::InAir, 25), 26);
    assert_eq!(advance(PlayerState::InAir, 26), 26);
    assert_eq!(advance(PlayerState::InAir, 40), 26);
}

#[test]
fn frame_waits_for_the_timer() {
    let mut timer = AnimationTimer::new();
    let mut index = 3;
    animate_sprite(40 * MILLISECOND, &mut timer, &mut index, &in_state(PlayerState::Running));
    assert_eq!(index, 3);
    animate_sprite(40 * MILLISECOND, &mut timer, &mut index, &in_state(PlayerState::Running));
    assert_eq!(index, 3);
    animate_sprite(40 * MILLISECOND, &mut timer, &mut index, &in_state(PlayerState::Running));
    assert_eq!(index, 4);
    assert_eq!(timer.0.elapsed, 20_000_000);
}

#[test]
fn hold_frame_is_shown_at_once() {
    for state in [PlayerState::OnWall, PlayerState::OnEdge] {
        let mut timer = AnimationTimer::new();
        let mut index = 20;
        animate_sprite(MILLISECOND, &mut timer, &mut index, &in_state(state));
        assert_eq!(index, 13);
        assert_eq!(timer.0.elapsed, 1_000_000);
    }
}

#[test]
fn climbing_keeps_the_frame() {
    assert_eq!(advance(PlayerState::Climbing, 13), 13);
    assert_eq!(advance(PlayerState::Climbing, 5), 5);
}

#[test]
fn sprite_is_flipped_when_facing_left() {
    let mut p = Player::new();
    assert!(!animate_direction(&p));
    p.facing_direction = Direction { x: -1, y: 0 };
    assert!(animate_direction(&p));
}

#[test]
fn particles_start_on_a_jump() {
    let mut t = JumpParticulesTimer(Countdown { elapsed: 100_000_000, duration: 100_000_000 });
    assert_eq!(jump_particules(16 * MILLISECOND, true, &mut t), Emission::Start);
    assert_eq!(t.0, Countdown { elapsed: 0, duration: 100_000_000 });
}

#[test]
fn particles_stop_when_the_timer_runs_out() {
    let mut t = JumpParticulesTimer::new();
    for _ in 0..6 {
        assert_eq!(jump_particules(16 * MILLISECOND, false, &mut t), Emission::Keep);
    }
    assert_eq!(t.0.elapsed, 96_000_000);
    assert_eq!(jump_particules(16 * MILLISECOND, false, &mut t), Emission::Stop);
    assert_eq!(jump_particules(16 * MILLISECOND, false, &mut t), Emission::Stop);
    assert_eq!(t.0.elapsed, 100_000_000);
}
