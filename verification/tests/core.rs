use beyonce_smash::player::Player;
use beyonce_smash::sim::MainState;
use beyonce_smash::smashable::Smashable;

fn player_at(y: u32, holding: u32) -> Player {
    Player { x: 195, y, h_x: 195, h_y: y + 32, h_w: 128, h_h: 32, holding }
}

#[test]
fn walking_advances_by_speed() {
    let mut p = Player::new();
    assert_eq!(p.y, 20);
    assert_eq!(p.h_y, 52);
    p.update();
    assert_eq!(p.y, 22);
    assert_eq!(p.h_y, 54);
    p.update();
    assert_eq!(p.y, 24);
    assert_eq!(p.h_y, 56);
}

#[test]
fn walking_wraps_modulo_track_height() {
    let mut p = player_at(699, 0);
    p.update();
    assert_eq!(p.y, 1);
    assert_eq!(p.h_y, 33);

    let mut q = player_at(698, 0);
    q.update();
    assert_eq!(q.y, 0);
    assert_eq!(q.h_y, 32);
}

#[test]
fn holding_suspends_motion() {
    let mut p = player_at(300, 5);
    p.update();
    assert_eq!(p.y, 300);
    assert_eq!(p.h_y, 332);
    assert_eq!(p.holding, 5);
}

#[test]
fn hold_seeds_then_charges_monotonically() {
    let mut p = Player::new();
    p.hold();
    assert_eq!(p.holding, 1);
    let mut last: u32 = p.holding;
    for _ in 0..19 {
        p.hold();
        assert_eq!(p.holding, last + 3);
        last = p.holding;
    }
    assert_eq!(p.holding, 58);
    p.hold();
    assert_eq!(p.holding, 0);
    p.hold();
    assert_eq!(p.holding, 1);
}

#[test]
fn unhold_resets_and_is_idempotent() {
    let mut p = player_at(100, 43);
    p.unhold();
    assert_eq!(p.holding, 0);
    p.unhold();
    assert_eq!(p.holding, 0);
}

#[test]
fn armed_strictly_above_minimum() {
    let mut p = Player::new();
    assert!(!p.is_strike_armed());
    p.holding = 40;
    assert!(!p.is_strike_armed());
    p.holding = 41;
    assert!(p.is_strike_armed());
    p.holding = 60;
    assert!(p.is_strike_armed());
}

#[test]
fn deactivate_is_idempotent() {
    let mut s = Smashable { x: 135, y: 200, active: true };
    s.deactivate();
    assert!(!s.active);
    assert_eq!(s.x, 135);
    assert_eq!(s.y, 200);
    s.deactivate();
    assert!(!s.active);
    assert_eq!(s.x, 135);
    assert_eq!(s.y, 200);
}

#[test]
fn unarmed_release_deactivates_nothing() {
    let mut v = Vec::new();
    v.push(Smashable { x: 135, y: 52, active: true });
    v.push(Smashable { x: 255, y: 52, active: true });
    let mut st = MainState::with_smashables(v);
    st.player = player_at(20, 40);
    st.on_hold_input_end();
    assert!(st.smashables[0].active);
    assert!(st.smashables[1].active);
    assert_eq!(st.player.holding, 0);
}

#[test]
fn armed_release_deactivates_only_the_overlapped_target() {
    let mut v = Vec::new();
    v.push(Smashable { x: 135, y: 600, active: true });
    v.push(Smashable { x: 135, y: 52, active: true });
    v.push(Smashable { x: 255, y: 600, active: true });
    let mut st = MainState::with_smashables(v);
    st.player = player_at(20, 43);
    st.on_hold_input_end();
    assert!(st.smashables[0].active);
    assert!(!st.smashables[1].active);
    assert!(st.smashables[2].active);
    assert_eq!(st.player.holding, 0);
}

#[test]
fn armed_release_deactivates_every_overlapped_target() {
    let mut v = Vec::new();
    v.push(Smashable { x: 135, y: 52, active: true });
    v.push(Smashable { x: 255, y: 52, active: true });
    v.push(Smashable { x: 135, y: 400, active: true });
    let mut st = MainState::with_smashables(v);
    st.player = player_at(20, 43);
    st.on_hold_input_end();
    assert!(!st.smashables[0].active);
    assert!(!st.smashables[1].active);
    assert!(st.smashables[2].active);
}

#[test]
fn inactive_target_is_excluded_from_the_strike() {
    let mut v = Vec::new();
    v.push(Smashable { x: 135, y: 52, active: false });
    let mut st = MainState::with_smashables(v);
    st.player = player_at(20, 43);
    st.on_hold_input_end();
    assert!(!st.smashables[0].active);
    assert_eq!(st.smashables[0].x, 135);
    assert_eq!(st.smashables[0].y, 52);
}

#[test]
fn full_charge_then_release_smashes_the_lane_target() {
    let mut v = Vec::new();
    v.push(Smashable { x: 135, y: 52, active: true });
    let mut st = MainState::with_smashables(v);
    for _ in 0..15 {
        st.on_hold_input_start_or_continue();
    }
    assert_eq!(st.player.holding, 43);
    st.on_hold_input_end();
    assert!(!st.smashables[0].active);
    assert_eq!(st.player.holding, 0);
}

#[test]
fn short_tap_then_release_leaves_the_target_active() {
    let mut v = Vec::new();
    v.push(Smashable { x: 135, y: 52, active: true });
    let mut st = MainState::with_smashables(v);
    st.on_hold_input_start_or_continue();
    assert_eq!(st.player.holding, 1);
    st.on_hold_input_end();
    assert!(st.smashables[0].active);
    assert_eq!(st.player.holding, 0);
}

#[test]
fn tick_moves_the_player_and_no_target() {
    let mut v = Vec::new();
    v.push(Smashable { x: 255, y: 300, active: true });
    let mut st = MainState::with_smashables(v);
    st.tick();
    assert_eq!(st.player.y, 22);
    assert!(st.smashables[0].active);
    assert_eq!(st.smashables[0].x, 255);
    assert_eq!(st.smashables[0].y, 300);
}

#[test]
fn new_simulation_spawns_a_full_batch_inside_the_bounds() {
    let st = MainState::new();
    assert_eq!(st.player.y, 20);
    assert_eq!(st.player.holding, 0);
    assert_eq!(st.smashables.len(), 13);
    for s in st.smashables.iter() {
        assert!(s.active);
        assert!(s.x == 135 || s.x == 255);
        assert!(s.y >= 100);
        assert!(s.y < 650);
    }
}
