use gunday::boss::explosion::{part_is_thrown, BossExplodingState, PRE_EXPLOSION_COUNT};
use gunday::boss::hits::{
    boss_head_hit, boss_spine_hit, BossSpine, BossStage2State, BossTransitionExplosionQueue,
    WeakSpotHit, BOSS_HEAD_HP, BOSS_SPINE_HP, TRANSITION_EXPLOSION_BURST_COUNT,
};
use gunday::boss::parts::{BossPartKind, BossParts};
use gunday::boss::shooting::{
    choose_move_anchor, AimTarget, pick_move_anchor, BossStage1MovementState, BossStage1ShootingState,
    SHOTS_PER_BURST,
};
use gunday::boss::stage::{
    arm_pose, boss_in_stage, boss_in_stages, boss_scale_sign, boss_should_spawn, head_pose,
    torso_sways, win_music_signal, ArmPose, BossStage, BossStageKind, HeadPose, TransitionPhase,
};
use gunday::boss::transition::{boss_transition_step, cannon_needs_detach, TransitionAction};
use gunday::game_state::GamePhase;

#[test]
fn parts_read_back_last_write() {
    let mut parts = BossParts::default();
    assert_eq!(parts.get(BossPartKind::Head), None);
    parts.insert(BossPartKind::Head, 7);
    parts.insert(BossPartKind::Cannon, 9);
    parts.insert(BossPartKind::Head, 11);
    assert_eq!(parts.get(BossPartKind::Head), Some(11));
    assert_eq!(parts.get(BossPartKind::Cannon), Some(9));
    assert_eq!(parts.get(BossPartKind::Spine), None);
}

#[test]
fn spine_breaks_after_all_hits_and_starts_fall() {
    let mut spine = BossSpine::default();
    assert_eq!(spine.hp, BOSS_SPINE_HP);
    let mut stage = BossStage(BossStageKind::Stage1);
    for _ in 0..(BOSS_SPINE_HP - 1) {
        assert_eq!(boss_spine_hit(&mut spine, &mut stage), WeakSpotHit::Damaged);
    }
    assert_eq!(stage.0, BossStageKind::Stage1);
    assert_eq!(boss_spine_hit(&mut spine, &mut stage), WeakSpotHit::Broken);
    assert_eq!(stage.0, BossStageKind::TransitionToStage2);
    assert_eq!(spine.hp, 0);
    assert_eq!(boss_spine_hit(&mut spine, &mut stage), WeakSpotHit::Ignored);
    assert_eq!(stage.0, BossStageKind::TransitionToStage2);
}

#[test]
fn head_only_hittable_in_stage2() {
    let mut s2 = BossStage2State::default();
    assert_eq!(s2.head_hp, BOSS_HEAD_HP);
    let mut stage = BossStage(BossStageKind::Stage1);
    assert_eq!(boss_head_hit(&mut s2, &mut stage), WeakSpotHit::Ignored);
    assert_eq!(s2.head_hp, BOSS_HEAD_HP);
    stage.0 = BossStageKind::Stage2;
    for _ in 0..(BOSS_HEAD_HP - 1) {
        assert_eq!(boss_head_hit(&mut s2, &mut stage), WeakSpotHit::Damaged);
    }
    assert_eq!(boss_head_hit(&mut s2, &mut stage), WeakSpotHit::Broken);
    assert_eq!(stage.0, BossStageKind::Exploding);
}

#[test]
fn explosion_queue_pops_in_order() {
    let mut q = BossTransitionExplosionQueue::for_burst(TRANSITION_EXPLOSION_BURST_COUNT).unwrap();
    assert_eq!(q, BossTransitionExplosionQueue { remaining: 2, total: 3 });
    assert!(!q.is_done());
    assert_eq!(q.pop(), (1, false));
    assert_eq!(q.pop(), (2, true));
    assert!(q.is_done());
    assert_eq!(BossTransitionExplosionQueue::for_burst(1), None);
    assert_eq!(BossTransitionExplosionQueue::for_burst(0), None);
}

#[test]
fn fall_phases_in_order() {
    let mut stage = BossStage(BossStageKind::TransitionToStage2);
    let mut phase = TransitionPhase::Blast;
    assert_eq!(boss_transition_step(&mut stage, &mut phase, false, true, true), TransitionAction::Nothing);
    assert_eq!(phase, TransitionPhase::Blast);
    assert_eq!(boss_transition_step(&mut stage, &mut phase, true, false, false), TransitionAction::Nothing);
    assert_eq!(phase, TransitionPhase::Downed);
    assert_eq!(boss_transition_step(&mut stage, &mut phase, true, false, true), TransitionAction::Nothing);
    assert_eq!(
        boss_transition_step(&mut stage, &mut phase, false, true, false),
        TransitionAction::RequestStage2Music
    );
    assert_eq!(phase, TransitionPhase::AwaitStage2Music);
    assert_eq!(boss_transition_step(&mut stage, &mut phase, false, false, false), TransitionAction::Nothing);
    assert_eq!(boss_transition_step(&mut stage, &mut phase, false, false, true), TransitionAction::Nothing);
    assert_eq!(phase, TransitionPhase::TurnToPlayer);
    assert_eq!(stage.0, BossStageKind::TransitionToStage2);
    assert_eq!(boss_transition_step(&mut stage, &mut phase, false, false, false), TransitionAction::EnterStage2);
    assert_eq!(stage.0, BossStageKind::Stage2);
    assert_eq!(boss_transition_step(&mut stage, &mut phase, true, true, true), TransitionAction::Nothing);
}

#[test]
fn cannon_detach_decision() {
    assert!(cannon_needs_detach(false, false));
    assert!(!cannon_needs_detach(true, false));
    assert!(!cannon_needs_detach(false, true));
}

#[test]
fn burst_fires_exactly_shots_per_burst() {
    let mut s = BossStage1ShootingState::default();
    assert!(!s.try_start_aiming(false));
    assert!(!s.finish_aiming(true));
    assert!(s.try_start_aiming(true));
    assert!(s.aiming);
    assert!(!s.try_start_aiming(true));
    assert!(!s.finish_aiming(false));
    assert!(s.finish_aiming(true));
    assert!(s.shooting && !s.aiming);
    let mut shots = 0;
    loop {
        shots += 1;
        if s.register_shot() {
            break;
        }
    }
    assert_eq!(shots, SHOTS_PER_BURST);
    assert!(!s.shooting && !s.aiming);
    assert_eq!(s.shot_count, SHOTS_PER_BURST);
    assert!(s.try_start_aiming(true));
    assert_eq!(s.shot_count, 0);
}

#[test]
fn move_requests_wait_for_idle() {
    let mut m = BossStage1MovementState::default();
    assert!(!m.try_start_move(false, false));
    m.request_move();
    assert!(m.idle_wave(false, false));
    assert!(!m.try_start_move(true, false));
    assert!(!m.try_start_move(false, true));
    assert!(m.try_start_move(false, false));
    assert!(!m.idle_wave(false, false));
    assert!(!m.try_start_move(false, false));
    m.finish_move();
    assert!(!m.moving && !m.pending_move_request);
    assert!(!m.idle_wave(true, false));
}

#[test]
fn move_never_targets_nearest_anchor() {
    assert_eq!(pick_move_anchor(0, true), 1);
    assert_eq!(pick_move_anchor(0, false), 2);
    assert_eq!(pick_move_anchor(2, true), 0);
    assert_eq!(pick_move_anchor(2, false), 1);
    for nearest in 0..3 {
        for _ in 0..20 {
            let a = choose_move_anchor(nearest);
            assert!(a < 3 && a != nearest);
        }
    }
}

#[test]
fn exploding_sequence_runs_once() {
    let mut parts = BossParts::new();
    parts.insert(BossPartKind::Torso, 1);
    parts.insert(BossPartKind::Head, 2);
    parts.insert(BossPartKind::Cannon, 3);
    let mut ex = BossExplodingState::default();
    assert!(ex.take_defeat_cue());
    assert!(!ex.take_defeat_cue());
    assert!(!ex.trigger_final_blast());
    assert!(ex.release_parts(&parts).is_empty());
    let mut indices = Vec::new();
    while ex.pre_explosions_pending() {
        let (i, last) = ex.next_pre_explosion();
        indices.push(i);
        assert_eq!(last, i + 1 == PRE_EXPLOSION_COUNT as usize);
    }
    assert_eq!(indices, vec![0, 1, 2, 3, 4, 5]);
    assert!(!ex.start_win(true));
    assert!(ex.trigger_final_blast());
    assert!(!ex.trigger_final_blast());
    let released = ex.release_parts(&parts);
    assert_eq!(
        released,
        vec![(BossPartKind::Head, 2), (BossPartKind::Torso, 1), (BossPartKind::Cannon, 3)]
    );
    assert_eq!(ex.released, 3);
    assert!(ex.converted);
    assert!(ex.release_parts(&parts).is_empty());
    assert!(!ex.finish(true));
    assert!(!ex.start_win(false));
    assert!(ex.start_win(true));
    assert!(!ex.start_win(true));
    assert!(!ex.finish(false));
    assert!(ex.finish(true));
    assert!(!ex.finish(true));
    assert!(ex.result_sent);
}

#[test]
fn only_the_cannon_is_not_thrown() {
    assert!(!part_is_thrown(BossPartKind::Cannon));
    assert!(part_is_thrown(BossPartKind::Head));
    assert!(part_is_thrown(BossPartKind::Torso));
}

#[test]
fn run_conditions() {
    assert!(boss_in_stage(Some(BossStageKind::Stage1), BossStageKind::Stage1));
    assert!(!boss_in_stage(Some(BossStageKind::Stage2), BossStageKind::Stage1));
    assert!(!boss_in_stage(None, BossStageKind::Stage1));
    let stages = [BossStageKind::TransitionToStage2, BossStageKind::Stage2];
    assert!(boss_in_stages(Some(BossStageKind::Stage2), &stages));
    assert!(!boss_in_stages(Some(BossStageKind::Exploding), &stages));
    assert!(!boss_in_stages(None, &stages));
}

#[test]
fn boss_spawns_once_on_entering_fight() {
    let events = vec![GamePhase::BossEntering, GamePhase::BossFight];
    assert!(boss_should_spawn(&events, false, true));
    assert!(!boss_should_spawn(&events, true, true));
    assert!(!boss_should_spawn(&events, false, false));
    assert!(!boss_should_spawn(&vec![GamePhase::LabFight], false, true));
}

#[test]
fn poses_and_signals() {
    assert!(win_music_signal(true, &vec![]));
    assert!(win_music_signal(false, &vec![false, true]));
    assert!(!win_music_signal(false, &vec![false]));
    assert_eq!(boss_scale_sign(true), -1);
    assert_eq!(boss_scale_sign(false), 1);
    assert_eq!(head_pose(BossStageKind::Exploding, None), HeadPose::Frozen);
    assert_eq!(
        head_pose(BossStageKind::TransitionToStage2, Some(TransitionPhase::TurnToPlayer)),
        HeadPose::FacePlayer
    );
    assert_eq!(head_pose(BossStageKind::TransitionToStage2, Some(TransitionPhase::Blast)), HeadPose::Downed);
    assert_eq!(head_pose(BossStageKind::TransitionToStage2, None), HeadPose::Downed);
    assert_eq!(head_pose(BossStageKind::Stage1, None), HeadPose::Track);
    assert_eq!(arm_pose(true, true), ArmPose::Shooting);
    assert_eq!(arm_pose(true, false), ArmPose::Aiming);
    assert_eq!(arm_pose(false, false), ArmPose::Relaxed);
    assert!(torso_sways(true, false));
    assert!(torso_sways(false, false));
    assert!(!torso_sways(false, true));
}

#[test]
fn cannon_aims_by_shooting_phase() {
    let mut s = BossStage1ShootingState::default();
    assert_eq!(s.cannon_target(false), AimTarget::Player);
    assert_eq!(s.cannon_target(true), AimTarget::Remembered);
    assert!(!s.cannon_tracks_slowly());
    assert!(s.may_turn());
    assert!(s.try_start_aiming(true));
    assert!(s.cannon_tracks_slowly());
    assert!(s.may_turn());
    assert!(s.finish_aiming(true));
    assert_eq!(s.cannon_target(true), AimTarget::Locked);
    assert_eq!(s.cannon_target(false), AimTarget::Locked);
    assert!(s.cannon_tracks_slowly());
    assert!(!s.may_turn());
}
