use code_tutor_core::errors::ErrorKind;
use code_tutor_core::narrative::{
    choice_visible, determine_outcome_type, get_location_choices, get_story_flag,
    is_outcome_completed, HealReward, NarrativeChoice, NarrativeOutcome, OutcomePenalties,
    OutcomeRewards, OutcomeType, StoryFlag, UserNarrativeProgress,
};
use code_tutor_core::outcome::{
    apply_narrative_outcome, get_outcome_by_type, make_simple_choice, resolve_skill_check,
    ItemCatalog, PlayerState,
};
use code_tutor_core::rng::roll_d20;
use code_tutor_core::stats::CharacterStats;
use code_tutor_core::currency::UserCurrency;
use code_tutor_core::progress::UserDungeonProgress;

fn fresh_state() -> PlayerState {
    PlayerState {
        stats: CharacterStats::initial(1),
        currency: UserCurrency::initial(1),
        dungeon: UserDungeonProgress::initial(1),
        narrative: UserNarrativeProgress::initial(1),
        consumable_inventory: Vec::new(),
        equipment_inventory: Vec::new(),
    }
}

fn empty_catalog() -> ItemCatalog {
    ItemCatalog { consumable_ids: Vec::new(), equipment_ids: Vec::new() }
}

fn bare_outcome(choice_id: &str, outcome_type: OutcomeType) -> NarrativeOutcome {
    NarrativeOutcome {
        id: format!("{}-o", choice_id),
        choice_id: String::from(choice_id),
        outcome_type,
        description: String::from("something happens"),
        next_location_id: None,
        rewards: None,
        penalties: None,
        sets_flags: Vec::new(),
        triggers_combat: false,
        enemy_id: None,
        enemy_count: 0,
    }
}

fn plain_choice(id: &str) -> NarrativeChoice {
    NarrativeChoice {
        id: String::from(id),
        location_id: String::from("loc-1"),
        choice_text: String::from("try the door"),
        requires_skill_check: true,
        skill_type: Some(String::from("dexterity")),
        skill_dc: Some(12),
        challenge_action_type: None,
        display_order: 0,
        icon: None,
        requires_flag: None,
    }
}

// A natural 20 with a numerically failing total is still a critical
// success; a natural 1 with a passing total is still a critical failure.
#[test]
fn d20_natural_rolls_override_totals() {
    assert_eq!(determine_outcome_type(20, false), OutcomeType::CriticalSuccess);
    assert_eq!(determine_outcome_type(1, true), OutcomeType::CriticalFailure);
    assert_eq!(determine_outcome_type(13, true), OutcomeType::Success);
    assert_eq!(determine_outcome_type(13, false), OutcomeType::Failure);
}

#[test]
fn skill_check_natural_twenty_on_failing_total() {
    let mut choice = plain_choice("c1");
    choice.skill_dc = Some(30);
    let outcomes = vec![
        bare_outcome("c1", OutcomeType::CriticalSuccess),
        bare_outcome("c1", OutcomeType::Failure),
    ];
    let (res, _) = resolve_skill_check(&choice, outcomes, fresh_state(), &empty_catalog(), 20, 2,
        true)
        .unwrap();
    assert_eq!(res.total_roll, 22);
    assert!(!res.check_passed);
    assert_eq!(res.outcome_type, OutcomeType::CriticalSuccess);
    assert_eq!(res.outcome.outcome_type, OutcomeType::CriticalSuccess);
}

#[test]
fn skill_check_natural_one_on_passing_total() {
    let choice = plain_choice("c1");
    let outcomes = vec![
        bare_outcome("c1", OutcomeType::CriticalFailure),
        bare_outcome("c1", OutcomeType::Success),
    ];
    let (res, _) = resolve_skill_check(&choice, outcomes, fresh_state(), &empty_catalog(), 1, 15,
        true)
        .unwrap();
    assert_eq!(res.total_roll, 16);
    assert!(res.check_passed);
    assert_eq!(res.outcome_type, OutcomeType::CriticalFailure);
}

// The stat modifier is gated on the coding challenge.
#[test]
fn modifier_gated_on_challenge() {
    let choice = plain_choice("c1");
    let outcomes = vec![
        bare_outcome("c1", OutcomeType::Success),
        bare_outcome("c1", OutcomeType::Failure),
    ];
    // Roll 9 + modifier 4 = 13 >= 12 passes when the challenge is solved.
    let (res, _) = resolve_skill_check(&choice, outcomes, fresh_state(), &empty_catalog(), 9, 4,
        true)
        .unwrap();
    assert_eq!(res.applied_modifier, 4);
    assert!(res.check_passed);

    // The same roll with the challenge failed is a flat 9 < 12.
    let outcomes = vec![
        bare_outcome("c1", OutcomeType::Success),
        bare_outcome("c1", OutcomeType::Failure),
    ];
    let (res, _) = resolve_skill_check(&choice, outcomes, fresh_state(), &empty_catalog(), 9, 4,
        false)
        .unwrap();
    assert_eq!(res.applied_modifier, 0);
    assert!(!res.check_passed);
    assert_eq!(res.outcome_type, OutcomeType::Failure);
}

// The DC defaults to 10 when the choice has none.
#[test]
fn dc_defaults_to_ten() {
    let mut choice = plain_choice("c1");
    choice.skill_dc = None;
    let outcomes = vec![
        bare_outcome("c1", OutcomeType::Success),
        bare_outcome("c1", OutcomeType::Failure),
    ];
    let (res, _) = resolve_skill_check(&choice, outcomes, fresh_state(), &empty_catalog(), 10, 0,
        true)
        .unwrap();
    assert_eq!(res.dc, 10);
    assert!(res.check_passed);
}

// Missing the exact outcome row falls back to the coarse row; missing
// both is a content error.
#[test]
fn outcome_fallback_and_missing() {
    let mut choice = plain_choice("c1");
    choice.skill_dc = Some(5);
    let outcomes = vec![bare_outcome("c1", OutcomeType::Success)];
    let (res, _) = resolve_skill_check(&choice, outcomes, fresh_state(), &empty_catalog(), 20, 0,
        true)
        .unwrap();
    // A natural 20 wants critical_success but only success exists.
    assert_eq!(res.outcome_type, OutcomeType::CriticalSuccess);
    assert_eq!(res.outcome.outcome_type, OutcomeType::Success);

    let r = resolve_skill_check(&choice, Vec::new(), fresh_state(), &empty_catalog(), 20, 0, true);
    match r {
        Err(e) => assert_eq!(e.kind, ErrorKind::NotFound),
        Ok(_) => panic!("no outcome rows must be a content error"),
    }
}

// Bookkeeping: counters and last-roll fields after one check.
#[test]
fn skill_check_bookkeeping() {
    let choice = plain_choice("c1");
    let outcomes = vec![
        bare_outcome("c1", OutcomeType::Success),
        bare_outcome("c1", OutcomeType::Failure),
    ];
    let (_, state) = resolve_skill_check(&choice, outcomes, fresh_state(), &empty_catalog(), 14, 1,
        true)
        .unwrap();
    assert_eq!(state.narrative.total_skill_checks, 1);
    assert_eq!(state.narrative.successful_skill_checks, 1);
    assert_eq!(state.narrative.last_roll, Some(14));
    assert_eq!(state.narrative.last_skill_dc, Some(12));
    assert_eq!(state.narrative.last_modifier, Some(1));
    assert_eq!(state.narrative.last_challenge_success, Some(true));
}

fn rewarding_outcome() -> NarrativeOutcome {
    let mut o = bare_outcome("c9", OutcomeType::Success);
    o.rewards = Some(OutcomeRewards { gold: Some(50), xp: Some(250), heal: None, items: Vec::new() });
    o
}

// Applying the same outcome twice awards its rewards only once.
#[test]
fn rewards_are_not_farmable() {
    let catalog = empty_catalog();
    let outcome = rewarding_outcome();
    let s1 = apply_narrative_outcome(fresh_state(), &catalog, &outcome);
    assert_eq!(s1.stats.current_gold, 150);
    assert_eq!(s1.currency.gold, 50);
    assert_eq!(s1.currency.lifetime_gold_earned, 50);
    assert_eq!(s1.dungeon.total_xp_earned, 250);
    // 250 experience at level 1: one step of 100 gained, 150 left over.
    assert_eq!(s1.stats.level, 2);
    assert_eq!(s1.stats.stat_points_available, 2 + 1);
    assert!(is_outcome_completed(&s1.narrative.completed_choices, &String::from("c9"),
        OutcomeType::Success));

    let s2 = apply_narrative_outcome(s1, &catalog, &outcome);
    assert_eq!(s2.stats.current_gold, 150);
    assert_eq!(s2.currency.gold, 50);
    assert_eq!(s2.currency.lifetime_gold_earned, 50);
    assert_eq!(s2.dungeon.total_xp_earned, 250);
    assert_eq!(s2.stats.level, 2);
    assert_eq!(s2.stats.stat_points_available, 3);
}

// Penalties are applied on every application, floored at zero.
#[test]
fn penalties_apply_every_time() {
    let catalog = empty_catalog();
    let mut outcome = bare_outcome("c8", OutcomeType::Failure);
    outcome.penalties = Some(OutcomePenalties { damage: Some(30), gold: Some(60) });
    let start = fresh_state();
    // Initial sheet: 50 health, 100 dungeon gold, 0 ledger gold.
    let s1 = apply_narrative_outcome(start, &catalog, &outcome);
    assert_eq!(s1.stats.current_health, 20);
    assert_eq!(s1.stats.current_gold, 40);
    assert_eq!(s1.currency.gold, 0);
    let s2 = apply_narrative_outcome(s1, &catalog, &outcome);
    assert_eq!(s2.stats.current_health, 0);
    assert_eq!(s2.stats.current_gold, 0);
    assert_eq!(s2.currency.gold, 0);
}

// Moving somewhere records the visit once, merges flags with overwrite,
// and repositions the player every time.
#[test]
fn movement_flags_and_visits() {
    let catalog = empty_catalog();
    let mut outcome = bare_outcome("c7", OutcomeType::Default);
    outcome.next_location_id = Some(String::from("loc-2"));
    outcome.sets_flags = vec![
        StoryFlag { key: String::from("door"), value: String::from("open") },
        StoryFlag { key: String::from("torch"), value: String::from("lit") },
    ];
    let s1 = apply_narrative_outcome(fresh_state(), &catalog, &outcome);
    assert_eq!(s1.narrative.current_location_id.as_deref(), Some("loc-2"));
    assert_eq!(s1.narrative.visited_locations.len(), 1);
    assert_eq!(
        get_story_flag(&s1.narrative.story_flags, "door").map(String::as_str),
        Some("open")
    );

    let mut again = bare_outcome("c7", OutcomeType::Default);
    again.next_location_id = Some(String::from("loc-2"));
    again.sets_flags = vec![StoryFlag { key: String::from("door"), value: String::from("shut") }];
    let s2 = apply_narrative_outcome(s1, &catalog, &again);
    // The visit set does not grow; the flag is overwritten.
    assert_eq!(s2.narrative.visited_locations.len(), 1);
    assert_eq!(
        get_story_flag(&s2.narrative.story_flags, "door").map(String::as_str),
        Some("shut")
    );
    assert_eq!(
        get_story_flag(&s2.narrative.story_flags, "torch").map(String::as_str),
        Some("lit")
    );
    assert_eq!(get_story_flag(&s2.narrative.story_flags, "window"), None);
}

// Item rewards stack into the matching inventory; unknown ids are ignored.
#[test]
fn item_rewards_follow_the_catalogs() {
    let catalog = ItemCatalog {
        consumable_ids: vec![String::from("potion")],
        equipment_ids: vec![String::from("sword")],
    };
    let mut outcome = bare_outcome("c6", OutcomeType::Success);
    outcome.rewards = Some(OutcomeRewards {
        gold: None,
        xp: None,
        heal: None,
        items: vec![
            String::from("potion"),
            String::from("potion"),
            String::from("sword"),
            String::from("ghost-item"),
        ],
    });
    let s1 = apply_narrative_outcome(fresh_state(), &catalog, &outcome);
    assert_eq!(s1.consumable_inventory.len(), 1);
    assert_eq!(s1.consumable_inventory[0].item_id, "potion");
    assert_eq!(s1.consumable_inventory[0].quantity, 2);
    assert_eq!(s1.equipment_inventory.len(), 1);
    assert_eq!(s1.equipment_inventory[0].item_id, "sword");
    assert_eq!(s1.equipment_inventory[0].quantity, 1);
}

// Heal rewards: a numeric heal clamps at the maximum, a full heal tops up.
#[test]
fn heal_rewards_clamp() {
    let catalog = empty_catalog();
    let mut hurt = fresh_state();
    hurt.stats.current_health = 10;

    let mut numeric = bare_outcome("c5", OutcomeType::Success);
    numeric.rewards = Some(OutcomeRewards {
        gold: None,
        xp: None,
        heal: Some(HealReward::Amount(15)),
        items: Vec::new(),
    });
    let s1 = apply_narrative_outcome(hurt, &catalog, &numeric);
    assert_eq!(s1.stats.current_health, 25);

    let mut full = bare_outcome("c4", OutcomeType::Success);
    full.rewards = Some(OutcomeRewards {
        gold: None,
        xp: None,
        heal: Some(HealReward::Full),
        items: Vec::new(),
    });
    let s2 = apply_narrative_outcome(s1, &catalog, &full);
    assert_eq!(s2.stats.current_health, s2.stats.max_health);
}

// A simple choice takes the fixed default outcome through the same path.
#[test]
fn simple_choice_uses_default_outcome() {
    let catalog = empty_catalog();
    let mut outcome = bare_outcome("c3", OutcomeType::Default);
    outcome.rewards = Some(OutcomeRewards { gold: Some(5), xp: None, heal: None, items: Vec::new() });
    let outcomes = vec![bare_outcome("c3", OutcomeType::Success), outcome];
    let (picked, state) = make_simple_choice(outcomes, fresh_state(), &catalog).unwrap();
    assert_eq!(picked.outcome_type, OutcomeType::Default);
    assert_eq!(state.currency.gold, 5);

    let r = make_simple_choice(vec![bare_outcome("c3", OutcomeType::Success)], fresh_state(),
        &catalog);
    match r {
        Err(e) => assert_eq!(e.kind, ErrorKind::NotFound),
        Ok(_) => panic!("a choice with no default row cannot be taken simply"),
    }
}

#[test]
fn outcome_by_named_type() {
    let catalog = empty_catalog();
    let outcomes = vec![
        bare_outcome("c2", OutcomeType::Failure),
        bare_outcome("c2", OutcomeType::Success),
    ];
    let (picked, _) = get_outcome_by_type(outcomes, OutcomeType::Success, fresh_state(), &catalog)
        .unwrap();
    assert_eq!(picked.outcome_type, OutcomeType::Success);
}

// Choice visibility: every required flag must hold with the exact value;
// absent flags or other values hide the choice.
#[test]
fn flag_gated_choices_filtered() {
    let mut progress = UserNarrativeProgress::initial(1);
    progress.story_flags = vec![StoryFlag {
        key: String::from("door"),
        value: String::from("open"),
    }];

    let open_choice = plain_choice("a");
    let mut gated = plain_choice("b");
    gated.requires_flag = Some(vec![StoryFlag {
        key: String::from("door"),
        value: String::from("open"),
    }]);
    let mut hidden_value = plain_choice("c");
    hidden_value.requires_flag = Some(vec![StoryFlag {
        key: String::from("door"),
        value: String::from("shut"),
    }]);
    let mut hidden_absent = plain_choice("d");
    hidden_absent.requires_flag = Some(vec![StoryFlag {
        key: String::from("window"),
        value: String::from("open"),
    }]);

    assert!(choice_visible(&open_choice, &progress.story_flags));
    assert!(choice_visible(&gated, &progress.story_flags));
    assert!(!choice_visible(&hidden_value, &progress.story_flags));
    assert!(!choice_visible(&hidden_absent, &progress.story_flags));

    let filtered = get_location_choices(
        vec![open_choice, gated, hidden_value, hidden_absent],
        &progress,
    );
    assert_eq!(filtered.len(), 2);
    assert_eq!(filtered[0].id, "a");
    assert_eq!(filtered[1].id, "b");
}

// The d20 wrapper stays in range however often it is thrown.
#[test]
fn d20_stays_in_range() {
    for _ in 0..200 {
        let r = roll_d20();
        assert!((1..=20).contains(&r));
    }
}

// Entering a floor resets position, visits and flags, but keeps the
// idempotence ledger and the check tallies.
#[test]
fn floor_start_resets_traversal() {
    let catalog = empty_catalog();
    let mut outcome = bare_outcome("c0", OutcomeType::Default);
    outcome.next_location_id = Some(String::from("old-room"));
    outcome.sets_flags = vec![StoryFlag { key: String::from("k"), value: String::from("v") }];
    let state = apply_narrative_outcome(fresh_state(), &catalog, &outcome);
    let progress = code_tutor_core::narrative::start_narrative_dungeon(
        state.narrative,
        2,
        &String::from("floor2-start"),
    );
    assert_eq!(progress.floor_number, 2);
    assert_eq!(progress.current_location_id.as_deref(), Some("floor2-start"));
    assert_eq!(progress.visited_locations, vec![String::from("floor2-start")]);
    assert!(progress.story_flags.is_empty());
    assert!(is_outcome_completed(&progress.completed_choices, &String::from("c0"),
        OutcomeType::Default));
}
