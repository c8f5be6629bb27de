use gunday::enemy_a::{
    enemy_robot_animation_step, enemy_robot_behavior_step, enemy_robot_can_be_hit,
    enemy_robot_on_hit, enemy_robot_shoot_step, infected_next_frame, infected_transform_frame,
    EnemyRobotState, EnemyRobotStateKind, EnemyRunAnim, EnemyShootTimer, InfectedFrame,
    RobotHitReaction, RobotShootOutcome, RobotSprite,
};

#[test]
fn robot_defaults() {
    let s = EnemyRobotState::default();
    assert_eq!(s.state, EnemyRobotStateKind::Running);
    assert!(!s.facing_right);
    assert_eq!(EnemyRunAnim::default().frame, 1);
    assert!(!EnemyShootTimer::default().fired);
}

#[test]
fn robot_stops_to_shoot_only_when_far_and_on_screen() {
    let mut s = EnemyRobotState::default();
    let mut t = EnemyShootTimer { fired: true };
    assert!(!enemy_robot_behavior_step(&mut s, &mut t, true, false));
    assert!(!enemy_robot_behavior_step(&mut s, &mut t, false, true));
    assert_eq!(s.state, EnemyRobotStateKind::Running);
    assert!(t.fired);
    assert!(enemy_robot_behavior_step(&mut s, &mut t, true, true));
    assert_eq!(s.state, EnemyRobotStateKind::Shooting);
    assert!(!t.fired);
    t.fired = true;
    assert!(!enemy_robot_behavior_step(&mut s, &mut t, true, true));
    assert!(t.fired);
}

#[test]
fn robot_fires_once_per_pose() {
    let mut s = EnemyRobotState { state: EnemyRobotStateKind::Shooting, facing_right: true };
    let mut t = EnemyShootTimer::default();
    let none = RobotShootOutcome { fire: false, pose_finished: false };
    assert_eq!(enemy_robot_shoot_step(&mut s, &mut t, false, false), none);
    assert_eq!(
        enemy_robot_shoot_step(&mut s, &mut t, true, false),
        RobotShootOutcome { fire: true, pose_finished: false }
    );
    assert!(t.fired);
    assert_eq!(enemy_robot_shoot_step(&mut s, &mut t, true, false), none);
    assert_eq!(
        enemy_robot_shoot_step(&mut s, &mut t, true, true),
        RobotShootOutcome { fire: false, pose_finished: true }
    );
    assert_eq!(s.state, EnemyRobotStateKind::Running);
    assert!(!t.fired);
    assert!(s.facing_right);
}

#[test]
fn robot_fires_and_finishes_pose_in_one_frame() {
    let mut s = EnemyRobotState { state: EnemyRobotStateKind::Shooting, facing_right: false };
    let mut t = EnemyShootTimer::default();
    assert_eq!(
        enemy_robot_shoot_step(&mut s, &mut t, true, true),
        RobotShootOutcome { fire: true, pose_finished: true }
    );
    assert!(!t.fired);
    assert_eq!(s.state, EnemyRobotStateKind::Running);
}

#[test]
fn running_robot_is_not_shooting() {
    let mut s = EnemyRobotState::default();
    let mut t = EnemyShootTimer::default();
    assert_eq!(
        enemy_robot_shoot_step(&mut s, &mut t, true, true),
        RobotShootOutcome { fire: false, pose_finished: false }
    );
    assert_eq!(s.state, EnemyRobotStateKind::Running);
}

#[test]
fn run_animation_cycles_through_four_frames() {
    let s = EnemyRobotState::default();
    let mut a = EnemyRunAnim::default();
    assert_eq!(enemy_robot_animation_step(&s, &mut a, false), RobotSprite::Run(0));
    let expected = [1u8, 2, 3, 0, 1];
    for image in expected {
        assert_eq!(enemy_robot_animation_step(&s, &mut a, true), RobotSprite::Run(image));
    }
    let mut odd = EnemyRunAnim { frame: 9 };
    assert_eq!(enemy_robot_animation_step(&s, &mut odd, false), RobotSprite::Run(0));
    assert_eq!(enemy_robot_animation_step(&s, &mut odd, true), RobotSprite::Run(0));
    assert_eq!(odd.frame, 1);
}

#[test]
fn robot_poses_for_shooting_and_hit() {
    let mut a = EnemyRunAnim::default();
    let shooting = EnemyRobotState { state: EnemyRobotStateKind::Shooting, facing_right: false };
    assert_eq!(enemy_robot_animation_step(&shooting, &mut a, true), RobotSprite::Shoot);
    let hit = EnemyRobotState { state: EnemyRobotStateKind::Hit, facing_right: false };
    assert_eq!(enemy_robot_animation_step(&hit, &mut a, true), RobotSprite::Hit);
    assert_eq!(a.frame, 1);
}

#[test]
fn robot_hit_reactions() {
    let mut s = EnemyRobotState::default();
    assert!(enemy_robot_can_be_hit(&s, false));
    assert!(!enemy_robot_can_be_hit(&s, true));
    assert_eq!(enemy_robot_on_hit(&mut s, true), RobotHitReaction::Transform);
    assert_eq!(s.state, EnemyRobotStateKind::Hit);
    assert!(!enemy_robot_can_be_hit(&s, false));
    let mut plain = EnemyRobotState::default();
    assert_eq!(enemy_robot_on_hit(&mut plain, false), RobotHitReaction::Die);
}

#[test]
fn infected_transformation_runs_four_frames() {
    let mut frame = 0usize;
    let mut durations = Vec::new();
    while let InfectedFrame::Show(i) = infected_transform_frame(frame) {
        assert_eq!(i, frame);
        let (next, index) = infected_next_frame(frame);
        durations.push(index);
        frame = next;
    }
    assert_eq!(frame, 4);
    assert_eq!(durations, vec![1, 2, 3, 3]);
    assert_eq!(infected_transform_frame(4), InfectedFrame::Done);
    assert_eq!(infected_transform_frame(10), InfectedFrame::Done);
}
