use code_tutor_core::combat::{
    calculate_enemy_damage, calculate_player_damage, end_combat_defeat, end_combat_victory,
    execute_combat_turn, execute_combat_turn_with_rolls, pick_random_enemy, resolve_enemy_damage,
    resolve_player_damage, select_enemy_by_roll, start_boss_combat, start_combat, Ability,
    AbilityType, BossEnemy, EnemyType, ScalingStat,
};
use code_tutor_core::currency::UserCurrency;
use code_tutor_core::errors::ErrorKind;
use code_tutor_core::progress::UserDungeonProgress;
use code_tutor_core::stats::CharacterStats;

fn base_stats() -> CharacterStats {
    let mut s = CharacterStats::initial(1);
    s.strength = 20;
    s.max_health = 100;
    s.current_health = 80;
    s.max_mana = 50;
    s.current_mana = 40;
    s.defense = 20;
    s.critical_chance_permille = 0;
    s.dodge_chance_permille = 0;
    s
}

fn strike_ability() -> Ability {
    Ability {
        id: String::from("strike"),
        name: String::from("Strike"),
        description: String::from("A basic strike"),
        ability_type: AbilityType::Attack,
        required_level: 1,
        mana_cost: 5,
        cooldown_turns: 0,
        base_value: 10,
        scaling_stat: ScalingStat::Strength,
        scaling_ratio_permille: 500,
        additional_effects: None,
        icon: String::from("sword"),
        animation_text: String::from("slash"),
    }
}

fn heal_ability() -> Ability {
    let mut a = strike_ability();
    a.ability_type = AbilityType::Heal;
    a.base_value = 30;
    a.scaling_stat = ScalingStat::Unscaled;
    a
}

fn goblin() -> EnemyType {
    EnemyType {
        id: String::from("goblin"),
        name: String::from("Goblin"),
        description: String::from("A small goblin"),
        base_health: 40,
        base_damage: 15,
        base_defense: 2,
        behavior_type: String::from("aggressive"),
        gold_drop_min: 7,
        gold_drop_max: 7,
        xp_reward: 25,
        loot_table: None,
        icon: String::from("g"),
        ascii_art: None,
    }
}

fn fresh_progress() -> UserDungeonProgress {
    UserDungeonProgress::initial(1)
}

// Ability base 10, strength 20 scaling at ratio 500 per mille, challenge
// solved, critical forced off: 10 + floor(20 * 0.5) = 20.
#[test]
fn player_damage_scaling_challenge_solved() {
    let stats = base_stats();
    let ability = strike_ability();
    assert_eq!(resolve_player_damage(&stats, &ability, true, false), 20);
}

// Same setup but the challenge failed: floor(20 * 0.5) = 10.
#[test]
fn player_damage_halved_on_failed_challenge() {
    let stats = base_stats();
    let ability = strike_ability();
    assert_eq!(resolve_player_damage(&stats, &ability, false, false), 10);
}

// A critical hit is exactly double, with and without the challenge.
#[test]
fn critical_hit_doubles_damage() {
    let stats = base_stats();
    let ability = strike_ability();
    assert_eq!(resolve_player_damage(&stats, &ability, true, true), 40);
    assert_eq!(resolve_player_damage(&stats, &ability, false, true), 20);
}

// An unrecognized scaling stat contributes nothing.
#[test]
fn unscaled_ability_uses_base_value_only() {
    let stats = base_stats();
    let mut ability = strike_ability();
    ability.scaling_stat = ScalingStat::Unscaled;
    assert_eq!(resolve_player_damage(&stats, &ability, true, false), 10);
}

// Enemy raw damage 15 against defense 20, dodge forced off: max(1, -5) = 1.
#[test]
fn enemy_damage_floors_at_one() {
    let stats = base_stats();
    assert_eq!(resolve_enemy_damage(&stats, 15, false), 1);
}

// A dodge is absolute: 0 damage no matter the raw attack.
#[test]
fn dodge_negates_all_damage() {
    let stats = base_stats();
    assert_eq!(resolve_enemy_damage(&stats, 1000, true), 0);
}

// Defense below the raw attack subtracts normally.
#[test]
fn enemy_damage_reduced_by_defense() {
    let mut stats = base_stats();
    stats.defense = 4;
    assert_eq!(resolve_enemy_damage(&stats, 15, false), 11);
}

// With chances pinned to 0 and 1000 the random layer is deterministic.
#[test]
fn chance_rolls_follow_permille_bounds() {
    let mut stats = base_stats();
    stats.critical_chance_permille = 0;
    let r = calculate_player_damage(&stats, &strike_ability(), true);
    assert!(!r.is_critical);
    assert_eq!(r.damage, 20);

    stats.critical_chance_permille = 1000;
    let r = calculate_player_damage(&stats, &strike_ability(), true);
    assert!(r.is_critical);
    assert_eq!(r.damage, 40);

    stats.dodge_chance_permille = 1000;
    let r = calculate_enemy_damage(&stats, 15);
    assert!(r.is_dodged);
    assert_eq!(r.damage, 0);
}

fn session_for(enemy_health: i64) -> code_tutor_core::combat::ActiveCombat {
    let mut enemy = goblin();
    enemy.base_health = enemy_health;
    let (session, _) = start_combat(1, &enemy, &fresh_progress());
    session
}

// Not enough mana: the turn is refused and nothing is returned to persist.
#[test]
fn mana_gate_refuses_turn() {
    let mut stats = base_stats();
    stats.current_mana = 4;
    let session = session_for(40);
    let r = execute_combat_turn(&stats, &strike_ability(), &session, true);
    match r {
        Err(e) => assert_eq!(e.kind, ErrorKind::InsufficientResource),
        Ok(_) => panic!("turn must be refused below the mana cost"),
    }
}

// A full ordinary turn: damage lands, mana is deducted, the enemy strikes
// back, the turn counter advances.
#[test]
fn ordinary_turn_with_retaliation() {
    let stats = base_stats();
    let session = session_for(40);
    let (res, new_stats, new_session) =
        execute_combat_turn_with_rolls(&stats, &strike_ability(), &session, true, false, false)
            .unwrap();
    assert_eq!(res.player_damage_dealt, 20);
    assert_eq!(res.enemy_current_health, 20);
    assert!(!res.enemy_defeated);
    // Snapshot enemy damage 15 against defense 20 floors at 1.
    assert_eq!(res.player_damage_taken, 1);
    assert_eq!(res.player_current_health, 79);
    assert_eq!(res.player_current_mana, 35);
    assert!(!res.player_defeated);
    assert_eq!(res.turn_number, 1);
    assert_eq!(new_stats.current_health, 79);
    assert_eq!(new_stats.current_mana, 35);
    assert_eq!(new_session.enemy_current_health, 20);
    assert_eq!(new_session.combat_turn, 1);
}

// Defeating the enemy this turn fully skips its counter-attack.
#[test]
fn no_retaliation_on_kill() {
    let stats = base_stats();
    let session = session_for(20);
    let (res, new_stats, _) =
        execute_combat_turn_with_rolls(&stats, &strike_ability(), &session, true, false, false)
            .unwrap();
    assert!(res.enemy_defeated);
    assert_eq!(res.player_damage_taken, 0);
    assert_eq!(res.player_current_health, stats.current_health);
    assert_eq!(new_stats.current_health, stats.current_health);
}

// A heal never touches the enemy, and is clamped at maximum health.
#[test]
fn heal_turn_leaves_enemy_untouched() {
    let stats = base_stats();
    let session = session_for(40);
    let (res, new_stats, new_session) =
        execute_combat_turn_with_rolls(&stats, &heal_ability(), &session, true, false, false)
            .unwrap();
    assert_eq!(res.player_damage_dealt, 0);
    assert_eq!(new_session.enemy_current_health, 40);
    assert!(!res.enemy_defeated);
    // 80 + 30 clamps to the maximum of 100 before the counter-attack.
    assert_eq!(new_stats.current_health, 100 - res.player_damage_taken);
}

// Starting a fight snapshots the enemy and raises the in-combat flag.
#[test]
fn start_combat_snapshots_enemy() {
    let enemy = goblin();
    let (session, progress) = start_combat(7, &enemy, &fresh_progress());
    assert_eq!(session.user_id, 7);
    assert_eq!(session.enemy_id, "goblin");
    assert_eq!(session.enemy_current_health, 40);
    assert_eq!(session.enemy_max_health, 40);
    assert_eq!(session.enemy_damage, 15);
    assert_eq!(session.enemy_defense, 2);
    assert!(!session.is_boss);
    assert_eq!(session.combat_turn, 0);
    assert!(progress.in_combat);
    assert_eq!(progress.current_enemy_id.as_deref(), Some("goblin"));
    assert_eq!(progress.current_enemy_health, Some(40));
}

#[test]
fn start_boss_combat_sets_boss_flag() {
    let boss = BossEnemy {
        id: String::from("dragon"),
        name: String::from("Dragon"),
        description: String::from("A large dragon"),
        floor_number: 5,
        health: 500,
        damage: 40,
        defense: 10,
        abilities: String::from("[]"),
        phases: None,
        gold_reward: 100,
        xp_reward: 400,
        guaranteed_loot: None,
        icon: String::from("D"),
        ascii_art: None,
    };
    let (session, progress) = start_boss_combat(1, &boss, &fresh_progress());
    assert!(session.is_boss);
    assert_eq!(session.enemy_max_health, 500);
    assert!(progress.in_combat);
}

// With an exact drop range the victory payout is pinned: gold to both
// ledger fields, tallies up, combat flag cleared.
#[test]
fn victory_pays_gold_and_xp() {
    let currency = UserCurrency {
        user_id: 1,
        gold: 10,
        gems: 2,
        lifetime_gold_earned: 10,
        lifetime_gems_earned: 2,
    };
    let mut progress = fresh_progress();
    progress.in_combat = true;
    let (rewards, new_currency, new_progress) = end_combat_victory(&currency, &progress, &goblin());
    assert_eq!(rewards.gold_gained, 7);
    assert_eq!(rewards.xp_gained, 25);
    assert!(rewards.items_looted.is_empty());
    assert_eq!(new_currency.gold, 17);
    assert_eq!(new_currency.lifetime_gold_earned, 17);
    assert_eq!(new_currency.gems, 2);
    assert!(!new_progress.in_combat);
    assert_eq!(new_progress.current_enemy_id, None);
    assert_eq!(new_progress.total_enemies_defeated, 1);
    assert_eq!(new_progress.total_gold_earned, 7);
    assert_eq!(new_progress.total_xp_earned, 25);
}

// Victory gold stays inside the drop range.
#[test]
fn victory_gold_within_drop_range() {
    let currency = UserCurrency::initial(1);
    let mut enemy = goblin();
    enemy.gold_drop_min = 3;
    enemy.gold_drop_max = 9;
    for _ in 0..50 {
        let (rewards, _, _) = end_combat_victory(&currency, &fresh_progress(), &enemy);
        assert!(rewards.gold_gained >= 3 && rewards.gold_gained <= 9);
    }
}

// Defeat on 37 gold: floor(37 * 0.1) = 3 deducted, pools fully restored,
// death counted.
#[test]
fn defeat_takes_tithe_and_respawns() {
    let mut stats = base_stats();
    stats.current_health = 0;
    stats.current_mana = 1;
    let currency = UserCurrency {
        user_id: 1,
        gold: 37,
        gems: 0,
        lifetime_gold_earned: 37,
        lifetime_gems_earned: 0,
    };
    let mut progress = fresh_progress();
    progress.in_combat = true;
    let (new_stats, new_currency, new_progress) = end_combat_defeat(&stats, &currency, &progress);
    assert_eq!(new_currency.gold, 34);
    assert_eq!(new_currency.lifetime_gold_earned, 37);
    assert_eq!(new_stats.current_health, new_stats.max_health);
    assert_eq!(new_stats.current_mana, new_stats.max_mana);
    assert!(!new_progress.in_combat);
    assert_eq!(new_progress.total_deaths, 1);
}

// Weighted spawning: the roll walks the table in order.
#[test]
fn weighted_pick_walks_the_table() {
    let table = vec![(goblin(), 3i64), (goblin(), 1i64), (goblin(), 6i64)];
    assert_eq!(select_enemy_by_roll(&table, 0), 0);
    assert_eq!(select_enemy_by_roll(&table, 2), 0);
    assert_eq!(select_enemy_by_roll(&table, 3), 1);
    assert_eq!(select_enemy_by_roll(&table, 4), 2);
    assert_eq!(select_enemy_by_roll(&table, 9), 2);
}

#[test]
fn random_pick_lands_in_table() {
    let table = vec![(goblin(), 3i64), (goblin(), 1i64)];
    for _ in 0..30 {
        let i = pick_random_enemy(&table).unwrap();
        assert!(i < table.len());
    }
    let empty: Vec<(EnemyType, i64)> = Vec::new();
    match pick_random_enemy(&empty) {
        Err(e) => assert_eq!(e.kind, ErrorKind::NotFound),
        Ok(_) => panic!("an empty table cannot spawn"),
    }
}
