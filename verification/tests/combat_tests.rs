use gunday::combat::{assign_projectile_hits, knockback_dir, player_can_be_damaged};

#[test]
fn first_enemy_takes_first_projectile_that_hits_it() {
    let eligible = vec![true, true];
    let hits = vec![vec![false, true, true], vec![false, true, false]];
    let assigned = assign_projectile_hits(&eligible, &hits, 3);
    assert_eq!(assigned, vec![Some(1), None]);
}

#[test]
fn each_projectile_hits_at_most_one_enemy() {
    let eligible = vec![true, true, true];
    let hits = vec![vec![true, true], vec![true, true], vec![true, true]];
    let assigned = assign_projectile_hits(&eligible, &hits, 2);
    assert_eq!(assigned, vec![Some(0), Some(1), None]);
}

#[test]
fn ineligible_enemies_are_skipped() {
    let eligible = vec![false, true];
    let hits = vec![vec![true], vec![true]];
    let assigned = assign_projectile_hits(&eligible, &hits, 1);
    assert_eq!(assigned, vec![None, Some(0)]);
}

#[test]
fn no_projectiles_no_hits() {
    let eligible = vec![true, true];
    let hits = vec![vec![], vec![]];
    assert_eq!(assign_projectile_hits(&eligible, &hits, 0), vec![None, None]);
}

#[test]
fn short_rows_count_as_misses() {
    let eligible = vec![true];
    let hits = vec![vec![false]];
    assert_eq!(assign_projectile_hits(&eligible, &hits, 3), vec![None]);
}

#[test]
fn knockback_pushes_away_from_player() {
    assert_eq!(knockback_dir(Some(true)), 1);
    assert_eq!(knockback_dir(Some(false)), -1);
    assert_eq!(knockback_dir(None), 1);
}

#[test]
fn player_damage_gate() {
    assert!(player_can_be_damaged(false, false, false));
    assert!(!player_can_be_damaged(true, false, false));
    assert!(!player_can_be_damaged(false, true, false));
    assert!(!player_can_be_damaged(false, false, true));
}
