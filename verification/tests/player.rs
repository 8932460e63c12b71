use quad_client::player::{Player, GRAVITY, JUMP_SPEED, RUN_SPEED};

#[test]
fn idle_step_applies_gravity_only() {
    let mut p = Player::new();
    p.step(false, false, false);
    assert_eq!(p.velocity_x, 0);
    assert_eq!(p.velocity_y, -GRAVITY);
    assert!(p.can_jump);
    p.step(false, false, false);
    assert_eq!(p.velocity_x, 0);
    assert_eq!(p.velocity_y, -2 * GRAVITY);
}

#[test]
fn horizontal_velocity_is_rebuilt_each_frame() {
    let mut p = Player::new();
    p.step(true, false, false);
    assert_eq!(p.velocity_x, -RUN_SPEED);
    p.step(false, true, false);
    assert_eq!(p.velocity_x, RUN_SPEED);
    p.step(false, false, false);
    assert_eq!(p.velocity_x, 0);
}

#[test]
fn left_and_right_together_cancel() {
    let mut p = Player::new();
    p.step(true, true, false);
    assert_eq!(p.velocity_x, 0);
}

#[test]
fn jump_launches_once_and_latches() {
    let mut p = Player::new();
    assert!(p.can_jump);

    // first frame with Up held: launch, then gravity
    p.step(false, false, true);
    assert_eq!(p.velocity_y, JUMP_SPEED - GRAVITY);
    assert!(!p.can_jump);

    // Up still held: the cleared latch blocks a second launch
    p.step(false, false, true);
    assert_eq!(p.velocity_y, JUMP_SPEED - 2 * GRAVITY);
    assert!(!p.can_jump);

    // releasing Up re-arms the latch
    p.step(false, false, false);
    assert!(p.can_jump);

    // and the next press launches again
    p.step(false, false, true);
    assert_eq!(p.velocity_y, JUMP_SPEED - GRAVITY);
    assert!(!p.can_jump);
}

#[test]
fn jump_does_not_touch_horizontal_velocity() {
    let mut p = Player::new();
    p.step(true, false, true);
    assert_eq!(p.velocity_x, -RUN_SPEED);
    assert_eq!(p.velocity_y, JUMP_SPEED - GRAVITY);
}

#[test]
fn motion_constants_hold_their_fixed_values() {
    assert_eq!(RUN_SPEED, 15);
    assert_eq!(JUMP_SPEED, 100);
    assert_eq!(GRAVITY, 3);
}

#[test]
fn new_player_is_at_rest_and_armed() {
    let p = Player::new();
    assert_eq!(p.velocity_x, 0);
    assert_eq!(p.velocity_y, 0);
    assert!(p.can_jump);
}
