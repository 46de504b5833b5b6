use raycer::ai::{ai_loadout, should_explode};
use raycer::blaster::{clamp_blaster_index, health_after_hit, smoke_puffs, BlasterSelection, BlasterType, BLASTER_DEF_COUNT};
use raycer::car::{
    clamp_car_index, classify_wheel_name, segment_removed, CarSelection, DamageTracker, Telemetry, WheelPosition,
    CAR_DEF_COUNT,
};
use raycer::game::{
    check_game_state, not_client, resolve_random_options, AiEnemyCount, GameCheck, GameState, MaxHealthPoints,
    NetMode, PendingState, PlayerName, PlayerStatus,
};
use raycer::telemetry::TelemetryRecorder;

#[test]
fn car_selector_cycles_through_random() {
    let mut s = CarSelection::default();
    s.select_prev();
    assert!(s.random && s.pending_change);
    assert_eq!(s.display_index(), 0);
    s.select_prev();
    assert!(!s.random);
    assert_eq!(s.index, CAR_DEF_COUNT - 1);
    s.select_next();
    assert!(s.random);
    s.select_next();
    assert_eq!((s.index, s.random), (0, false));
    for _ in 0..=CAR_DEF_COUNT {
        s.select_next();
    }
    assert_eq!((s.index, s.random), (0, false));
    assert!(s.take_change());
    assert!(!s.take_change());
}

#[test]
fn blaster_selector_prev_undoes_next() {
    let mut s = BlasterSelection::default();
    s.index = 3;
    s.select_next();
    assert_eq!(s.index, 4);
    s.select_prev();
    assert_eq!((s.index, s.random), (3, false));
    s.index = BLASTER_DEF_COUNT - 1;
    s.select_next();
    assert!(s.random);
    assert_eq!(s.display_index(), 0);
}

#[test]
fn resolved_indices_are_in_range() {
    let mut c = CarSelection::default();
    c.random = true;
    let mut b = BlasterSelection::default();
    b.random = true;
    for _ in 0..50 {
        assert!(c.resolve_index() < CAR_DEF_COUNT);
        assert!(b.resolve_index() < BLASTER_DEF_COUNT);
    }
    c.random = false;
    c.index = 11;
    assert_eq!(c.resolve_index(), 11);
}

#[test]
fn opponent_and_health_selectors() {
    let mut ai = AiEnemyCount::default();
    assert_eq!((ai.count, ai.random), (3, false));
    ai.count = 10;
    ai.select_next();
    assert!(ai.random);
    ai.select_next();
    assert_eq!((ai.count, ai.random), (0, false));
    ai.select_prev();
    assert!(ai.random);
    ai.select_prev();
    assert_eq!((ai.count, ai.random), (10, false));

    let mut hp = MaxHealthPoints::default();
    assert_eq!(hp.hp, 3);
    hp.select_prev();
    assert_eq!(hp.hp, 2);
    hp.select_prev();
    assert!(hp.random);
    hp.select_prev();
    assert_eq!((hp.hp, hp.random), (10, false));
    hp.select_next();
    assert!(hp.random);
    hp.select_next();
    assert_eq!((hp.hp, hp.random), (2, false));
}

#[test]
fn host_adjusters_saturate() {
    let mut hp = MaxHealthPoints { hp: 1, random: false };
    hp.host_decrement();
    assert_eq!(hp.hp, 1);
    hp.hp = 20;
    hp.host_increment();
    assert_eq!(hp.hp, 20);
    hp.hp = 5;
    hp.host_increment();
    assert_eq!(hp.hp, 6);
    let mut ai = AiEnemyCount { count: 0, random: false };
    ai.host_decrement();
    assert_eq!(ai.count, 0);
    ai.count = 19;
    ai.host_increment();
    ai.host_increment();
    assert_eq!(ai.count, 20);
}

#[test]
fn random_options_are_drawn_in_range() {
    for _ in 0..50 {
        let mut ai = AiEnemyCount { count: 99, random: true };
        let mut hp = MaxHealthPoints { hp: 99, random: true };
        resolve_random_options(&mut ai, &mut hp);
        assert!(!ai.random && ai.count <= 10);
        assert!(!hp.random && (2..=10).contains(&hp.hp));
    }
    let mut ai = AiEnemyCount { count: 7, random: false };
    let mut hp = MaxHealthPoints { hp: 13, random: false };
    resolve_random_options(&mut ai, &mut hp);
    assert_eq!((ai.count, hp.hp), (7, 13));
}

#[test]
fn referee_decides_defeat_victory_or_continue() {
    let alive = PlayerStatus { fell: false, health: 2, exploding: false };
    let fell = PlayerStatus { fell: true, health: 2, exploding: false };
    let dead = PlayerStatus { fell: false, health: 0, exploding: false };
    let exploding = PlayerStatus { fell: false, health: 0, exploding: true };
    assert_eq!(check_game_state(&vec![alive, fell, dead], 2, 3), GameCheck::Defeat { player: 1 });
    assert_eq!(check_game_state(&vec![dead], 0, 3), GameCheck::Defeat { player: 0 });
    assert_eq!(check_game_state(&vec![alive], 0, 3), GameCheck::Victory);
    assert_eq!(check_game_state(&vec![alive], 0, 0), GameCheck::Continue);
    assert_eq!(check_game_state(&vec![alive], 1, 3), GameCheck::Continue);
    assert_eq!(check_game_state(&vec![exploding], 0, 3), GameCheck::Continue);
    assert_eq!(check_game_state(&vec![], 0, 3), GameCheck::Continue);
}

#[test]
fn pending_state_is_taken_once() {
    let mut p = PendingState(Some(GameState::Playing));
    assert_eq!(p.take(), Some(GameState::Playing));
    assert_eq!(p.take(), None);
    assert_eq!(GameState::default(), GameState::Loading);
}

#[test]
fn net_mode_and_names() {
    assert!(not_client(&NetMode::Solo));
    assert!(not_client(&NetMode::Host { server_name: "x".to_string() }));
    assert!(!not_client(&NetMode::Client));
    assert_eq!(PlayerName::default().0, "Player");
}

#[test]
fn hits_respect_teams_and_saturate() {
    assert_eq!(health_after_hit(3, 1, Some(0), Some(0)), 2);
    assert_eq!(health_after_hit(3, 1, Some(1), Some(1)), 3);
    assert_eq!(health_after_hit(3, 1, Some(1), Some(2)), 2);
    assert_eq!(health_after_hit(3, 5, None, Some(1)), 0);
    assert_eq!(health_after_hit(3, 1, Some(1), None), 2);
}

#[test]
fn shot_costs_and_smoke() {
    assert_eq!(BlasterType::Single.shot_cost(), 1);
    assert_eq!(BlasterType::Sniper.shot_cost(), 1);
    assert_eq!(BlasterType::Shotgun { pellets: 3, spread_bits: 0.12f32.to_bits() }.shot_cost(), 3);
    assert_eq!(BlasterType::Burst { count: 4 }.shot_cost(), 4);
    assert_eq!(smoke_puffs(9), 3);
    assert_eq!(smoke_puffs(2), 2);
}

#[test]
fn damage_tracker_reports_new_damage_once() {
    let mut t = DamageTracker::default();
    assert_eq!(t.observe(5, 5), 0);
    assert_eq!(t.observe(5, 3), 6);
    assert_eq!(t.observe(5, 3), 0);
    assert_eq!(t.observe(5, 0), 9);
    assert_eq!(t.total_damage_taken, 5);
    assert_eq!(t.observe(5, 4), 0);
    assert_eq!(t.total_damage_taken, 5);
}

#[test]
fn health_segments_and_clamps() {
    assert!(!segment_removed(3, 3, 2));
    assert!(segment_removed(1, 3, 1));
    assert!(segment_removed(1, 3, 2));
    assert!(!segment_removed(1, 3, 0));
    assert_eq!(clamp_car_index(100), CAR_DEF_COUNT - 1);
    assert_eq!(clamp_car_index(4), 4);
    assert_eq!(clamp_blaster_index(6), 5);
}

#[test]
fn opponents_take_turns_with_models() {
    assert_eq!(ai_loadout(0), (3, 1));
    assert_eq!(ai_loadout(7), (1, 2));
    assert_eq!(ai_loadout(8), (3, 3));
    assert!(should_explode(true, 3, true));
    assert!(should_explode(false, 0, false));
    assert!(!should_explode(false, 0, true));
}

#[test]
fn telemetry_keeps_last_samples() {
    let mut t: Telemetry<f32> = Telemetry::default();
    assert_eq!(t.max_samples, 300);
    for i in 0..305 {
        t.record(i as f32, -(i as f32), 2.0 * i as f32);
    }
    assert_eq!(t.speed_history.len(), 300);
    assert_eq!(t.steer_history.len(), 300);
    assert_eq!(t.yaw_rate_history.len(), 300);
    assert_eq!(t.speed_history[0], 5.0);
    assert_eq!(*t.speed_history.last().unwrap(), 304.0);
    assert_eq!(*t.yaw_rate_history.last().unwrap(), 608.0);
}

#[test]
fn wheel_names_are_recognised() {
    assert_eq!(classify_wheel_name("Wheel-Front_Left"), Some(WheelPosition::FrontLeft));
    assert_eq!(classify_wheel_name("FR"), Some(WheelPosition::FrontRight));
    assert_eq!(classify_wheel_name("wheel_back_left"), Some(WheelPosition::RearLeft));
    assert_eq!(classify_wheel_name("WheelRearRight"), Some(WheelPosition::RearRight));
    assert_eq!(classify_wheel_name("body"), None);
    assert_eq!(classify_wheel_name("b-l"), Some(WheelPosition::RearLeft));
}

#[test]
fn telemetry_recorder_toggles() {
    let mut r: TelemetryRecorder<u32> = TelemetryRecorder::default();
    r.data.push(1);
    assert!(r.toggle_recording());
    assert!(r.data.is_empty());
    r.data.push(2);
    assert!(!r.toggle_recording());
    assert_eq!(r.data, vec![2]);
    assert_eq!(r.save_path(), "telemetry.json");
    r.file_path = Some("x.jsonl".to_string());
    assert_eq!(r.save_path(), "x.jsonl");
}
