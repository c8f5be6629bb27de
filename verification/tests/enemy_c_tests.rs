use gunday::enemy_c::{
    enemy_c_animation_step, enemy_c_behavior_step, enemy_c_can_be_hit,
    enemy_c_dynamic_spawn_decide, enemy_c_land, enemy_c_on_hit, enemy_c_spawn_gate,
    enemy_c_spawn_plan, EnemyCAnimOutcome, EnemyCAnimation, EnemyCHitPoints, EnemyCHitReaction,
    EnemyCMotion, EnemyCSpawnGate, EnemyCSprite, EnemyCState, EnemyCStateKind, ScreenEdge,
    ENEMY_C_DYNAMIC_SPAWN_LIMIT, ENEMY_C_HIT_POINTS,
};
use gunday::game_state::GamePhase;

#[test]
fn crawler_dies_on_third_hit() {
    let mut s = EnemyCState::default();
    let mut hp = EnemyCHitPoints::new(ENEMY_C_HIT_POINTS);
    assert_eq!(hp.current, 3);
    assert_eq!(enemy_c_on_hit(&mut s, &mut hp), EnemyCHitReaction::Flinch);
    assert_eq!(enemy_c_on_hit(&mut s, &mut hp), EnemyCHitReaction::Flinch);
    assert_eq!(s.state, EnemyCStateKind::Running);
    assert!(enemy_c_can_be_hit(&s));
    assert_eq!(enemy_c_on_hit(&mut s, &mut hp), EnemyCHitReaction::Defeated);
    assert_eq!(s.state, EnemyCStateKind::Dying);
    assert_eq!(hp.current, 0);
    assert!(!enemy_c_can_be_hit(&s));
}

#[test]
fn hit_points_stop_at_zero() {
    let mut hp = EnemyCHitPoints::new(0);
    assert!(hp.take_hit());
    assert_eq!(hp.current, 0);
    let mut one = EnemyCHitPoints::new(1);
    assert!(one.take_hit());
}

#[test]
fn crawler_jump_cycle() {
    let mut s = EnemyCState { state: EnemyCStateKind::Running, facing_right: true };
    assert_eq!(enemy_c_behavior_step(&mut s, true, true, true), EnemyCMotion::Paused);
    assert_eq!(enemy_c_behavior_step(&mut s, false, false, true), EnemyCMotion::Run);
    assert_eq!(enemy_c_behavior_step(&mut s, false, true, false), EnemyCMotion::StartWindup);
    assert_eq!(s.state, EnemyCStateKind::JumpWindup);
    assert_eq!(enemy_c_behavior_step(&mut s, false, true, false), EnemyCMotion::Winding);
    assert_eq!(enemy_c_behavior_step(&mut s, false, false, true), EnemyCMotion::Leap);
    assert_eq!(s.state, EnemyCStateKind::Jumping);
    assert_eq!(enemy_c_behavior_step(&mut s, false, true, true), EnemyCMotion::Airborne);
    assert!(!enemy_c_land(&mut s, false));
    assert!(enemy_c_land(&mut s, true));
    assert_eq!(s.state, EnemyCStateKind::Running);
    assert!(!enemy_c_land(&mut s, true));
    assert!(s.facing_right);
}

#[test]
fn dying_crawler_is_frozen() {
    let mut s = EnemyCState { state: EnemyCStateKind::Dying, facing_right: false };
    assert_eq!(enemy_c_behavior_step(&mut s, true, true, true), EnemyCMotion::Frozen);
    assert_eq!(s.state, EnemyCStateKind::Dying);
}

#[test]
fn run_animation_cycles_three_frames() {
    let s = EnemyCState::default();
    let mut a = EnemyCAnimation::default();
    let mut images = Vec::new();
    for _ in 0..4 {
        let out = enemy_c_animation_step(&mut a, &s, false, true, false);
        assert!(out.reset_timer);
        if let EnemyCSprite::Run(i) = out.sprite {
            images.push(i);
        }
    }
    assert_eq!(images, vec![1, 2, 0, 1]);
    let out = enemy_c_animation_step(&mut a, &s, false, false, true);
    assert_eq!(out, EnemyCAnimOutcome { sprite: EnemyCSprite::Run(1), flash: true, reset_timer: false });
}

#[test]
fn crawler_images_per_state() {
    let mut a = EnemyCAnimation { frame: 2 };
    let s = EnemyCState::default();
    assert_eq!(
        enemy_c_animation_step(&mut a, &s, true, true, true),
        EnemyCAnimOutcome { sprite: EnemyCSprite::Run(0), flash: false, reset_timer: true }
    );
    let windup = EnemyCState { state: EnemyCStateKind::JumpWindup, facing_right: false };
    a.frame = 2;
    assert_eq!(
        enemy_c_animation_step(&mut a, &windup, false, false, true),
        EnemyCAnimOutcome { sprite: EnemyCSprite::Run(0), flash: true, reset_timer: true }
    );
    let jumping = EnemyCState { state: EnemyCStateKind::Jumping, facing_right: false };
    assert_eq!(
        enemy_c_animation_step(&mut a, &jumping, false, false, true),
        EnemyCAnimOutcome { sprite: EnemyCSprite::Jump, flash: false, reset_timer: true }
    );
    let dying = EnemyCState { state: EnemyCStateKind::Dying, facing_right: false };
    a.frame = 1;
    assert_eq!(
        enemy_c_animation_step(&mut a, &dying, false, true, true),
        EnemyCAnimOutcome { sprite: EnemyCSprite::Hit, flash: false, reset_timer: false }
    );
    assert_eq!(a.frame, 0);
}

#[test]
fn spawn_gate_decisions() {
    assert_eq!(enemy_c_spawn_gate(GamePhase::HangarFight, true, true, 0), EnemyCSpawnGate::Inactive);
    assert_eq!(enemy_c_spawn_gate(GamePhase::LabFight, false, true, 0), EnemyCSpawnGate::NoCamera);
    assert_eq!(enemy_c_spawn_gate(GamePhase::LabFight, true, false, 0), EnemyCSpawnGate::Wait);
    assert_eq!(
        enemy_c_spawn_gate(GamePhase::LabFight, true, true, ENEMY_C_DYNAMIC_SPAWN_LIMIT),
        EnemyCSpawnGate::Full
    );
    assert_eq!(enemy_c_spawn_gate(GamePhase::LabFight, true, true, 5), EnemyCSpawnGate::Open);
}

#[test]
fn spawn_plan_faces_into_the_screen() {
    let left = enemy_c_spawn_plan(true);
    assert_eq!(left.edge, ScreenEdge::Left);
    assert!(left.facing_right);
    let right = enemy_c_spawn_plan(false);
    assert_eq!(right.edge, ScreenEdge::Right);
    assert!(!right.facing_right);
}

#[test]
fn dynamic_spawn_uses_random_edge_only_when_open() {
    let (gate, plan) = enemy_c_dynamic_spawn_decide(GamePhase::LabFight, true, true, 6);
    assert_eq!(gate, EnemyCSpawnGate::Full);
    assert!(plan.is_none());
    let mut seen_left = false;
    let mut seen_right = false;
    for _ in 0..200 {
        let (gate, plan) = enemy_c_dynamic_spawn_decide(GamePhase::LabFight, true, true, 0);
        assert_eq!(gate, EnemyCSpawnGate::Open);
        let plan = plan.unwrap();
        assert_eq!(plan.facing_right, plan.edge == ScreenEdge::Left);
        match plan.edge {
            ScreenEdge::Left => seen_left = true,
            ScreenEdge::Right => seen_right = true,
        }
    }
    assert!(seen_left && seen_right);
}
