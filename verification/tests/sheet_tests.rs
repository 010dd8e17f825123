use code_tutor_core::currency::{add_currency, spend_currency, CurrencyKind, UserCurrency};
use code_tutor_core::errors::ErrorKind;
use code_tutor_core::langs::{ExecutionMode, LanguageConfig};
use code_tutor_core::mcq::{extract_section, infer_topic};
use code_tutor_core::stats::{
    apply_level_progression, distribute_stat_points, recalculate_derived_stats,
    restore_health_and_mana, spend_stat_point_on_health, spend_stat_point_on_mana,
    spend_stat_point_on_stat, CharacterStats,
};
use code_tutor_core::text::{contains_nocase, str_eq_chars, str_eq_nocase};

#[test]
fn initial_sheet_defaults() {
    let s = CharacterStats::initial(9);
    assert_eq!(s.user_id, 9);
    assert_eq!(s.level, 1);
    assert_eq!(s.max_health, 50);
    assert_eq!(s.current_health, 50);
    assert_eq!(s.max_mana, 30);
    assert_eq!(s.current_mana, 30);
    assert_eq!(s.base_damage, 10);
    assert_eq!(s.defense, 5);
    assert_eq!(s.critical_chance_permille, 50);
    assert_eq!(s.dodge_chance_permille, 50);
    assert_eq!(s.stat_points_available, 2);
    assert_eq!(s.current_gold, 100);
}

// The derived formulas: health from level, mana from intelligence,
// defense from strength, chances from dexterity.
#[test]
fn derived_stats_formulas() {
    let mut s = CharacterStats::initial(1);
    s.level = 3;
    s.intelligence = 7;
    s.strength = 12;
    s.dexterity = 10;
    let r = recalculate_derived_stats(&s);
    assert_eq!(r.max_health, 130);
    assert_eq!(r.max_mana, 64);
    assert_eq!(r.defense, 7);
    assert_eq!(r.critical_chance_permille, 100);
    assert_eq!(r.dodge_chance_permille, 80);
    // Current pools are left alone.
    assert_eq!(r.current_health, s.current_health);
    assert_eq!(r.current_mana, s.current_mana);
}

// 250 experience at level 1 on the escalating curve: one level gained,
// 150 left toward level 3 (which costs 200).
#[test]
fn level_curve_escalates() {
    assert_eq!(apply_level_progression(1, 250), (2, 150, 1));
    assert_eq!(apply_level_progression(1, 99), (1, 99, 0));
    assert_eq!(apply_level_progression(1, 100), (2, 0, 1));
    // 100 + 200 + 300 = 600 carries a level-1 character to level 4 exactly.
    assert_eq!(apply_level_progression(1, 600), (4, 0, 3));
    assert_eq!(apply_level_progression(3, 299), (3, 299, 0));
}

#[test]
fn stat_point_distribution_checks_pool() {
    let mut s = CharacterStats::initial(1);
    s.stat_points_available = 3;
    let r = distribute_stat_points(&s, 2, 1, 0).unwrap();
    assert_eq!(r.strength, 3);
    assert_eq!(r.intelligence, 2);
    assert_eq!(r.dexterity, 1);
    assert_eq!(r.stat_points_available, 0);
    // Derived stats were recomputed from the new attributes.
    assert_eq!(r.max_mana, 54);

    let deny = distribute_stat_points(&s, 2, 2, 0);
    match deny {
        Err(e) => assert_eq!(e.kind, ErrorKind::InsufficientResource),
        Ok(_) => panic!("the pool must cover the total"),
    }
}

#[test]
fn single_point_spends() {
    let s = CharacterStats::initial(1);
    let h = spend_stat_point_on_health(&s).unwrap();
    assert_eq!(h.max_health, 55);
    assert_eq!(h.current_health, 55);
    assert_eq!(h.stat_points_available, 1);

    let m = spend_stat_point_on_mana(&s).unwrap();
    assert_eq!(m.max_mana, 35);
    assert_eq!(m.current_mana, 35);

    let c = spend_stat_point_on_stat(&s, "charisma").unwrap();
    assert_eq!(c.charisma, 2);
    assert_eq!(c.stat_points_available, 1);

    match spend_stat_point_on_stat(&s, "luck") {
        Err(e) => assert_eq!(e.kind, ErrorKind::InvalidState),
        Ok(_) => panic!("an unknown attribute name must be rejected"),
    }

    let mut broke = s;
    broke.stat_points_available = 0;
    match spend_stat_point_on_stat(&broke, "strength") {
        Err(e) => assert_eq!(e.kind, ErrorKind::InsufficientResource),
        Ok(_) => panic!("an empty pool cannot be spent"),
    }
}

#[test]
fn restore_fills_both_pools() {
    let mut s = CharacterStats::initial(1);
    s.current_health = 1;
    s.current_mana = 0;
    let r = restore_health_and_mana(&s);
    assert_eq!(r.current_health, r.max_health);
    assert_eq!(r.current_mana, r.max_mana);
}

// The ledger: credits move balance and lifetime counter, debits only the
// balance, and an uncovered debit is refused.
#[test]
fn currency_ledger_movements() {
    let c = UserCurrency::initial(4);
    let c = add_currency(&c, CurrencyKind::Gold, 30);
    assert_eq!(c.gold, 30);
    assert_eq!(c.lifetime_gold_earned, 30);
    let c = add_currency(&c, CurrencyKind::Gems, 5);
    assert_eq!(c.gems, 5);
    assert_eq!(c.lifetime_gems_earned, 5);

    let c = spend_currency(&c, CurrencyKind::Gold, 12).unwrap();
    assert_eq!(c.gold, 18);
    assert_eq!(c.lifetime_gold_earned, 30);

    match spend_currency(&c, CurrencyKind::Gold, 19) {
        Err(e) => assert_eq!(e.kind, ErrorKind::InsufficientResource),
        Ok(_) => panic!("a debit above the balance must be refused"),
    }

    // A negative credit lowers the balance but never the lifetime counter.
    let c = add_currency(&c, CurrencyKind::Gold, -8);
    assert_eq!(c.gold, 10);
    assert_eq!(c.lifetime_gold_earned, 30);
}

#[test]
fn string_helpers() {
    assert!(str_eq_chars("abc", "abc"));
    assert!(!str_eq_chars("abc", "abd"));
    assert!(!str_eq_chars("abc", "ab"));
    assert!(str_eq_nocase("PyThOn", "python"));
    assert!(!str_eq_nocase("python3", "python"));
    assert!(contains_nocase("What is a VARIABLE?", "variable"));
    assert!(!contains_nocase("short", "longer than the text"));
    assert!(contains_nocase("anything", ""));
}

#[test]
fn language_configs() {
    let py = LanguageConfig::get_config("Python").unwrap();
    assert_eq!(py.command, vec![String::from("python"), String::from("-c")]);
    assert_eq!(
        py.fallback_command,
        Some(vec![String::from("python3"), String::from("-c")])
    );
    assert_eq!(py.execution_mode, ExecutionMode::Inline);
    assert_eq!(py.extension, ".py");

    let gd = LanguageConfig::get_config("gdscript").unwrap();
    assert_eq!(gd.execution_mode, ExecutionMode::File);
    assert_eq!(gd.extension, ".gd");
    assert_eq!(
        gd.command,
        vec![
            String::from("godot"),
            String::from("--headless"),
            String::from("--script")
        ]
    );
    assert!(gd.fallback_command.is_none());

    let cs = LanguageConfig::get_config("CSHARP").unwrap();
    assert_eq!(cs.extension, ".csx");
    let rb = LanguageConfig::get_config("ruby").unwrap();
    assert_eq!(rb.extension, ".rb");
    let sh = LanguageConfig::get_config("bash").unwrap();
    assert_eq!(sh.fallback_command, Some(vec![String::from("sh"), String::from("-c")]));
    let js = LanguageConfig::get_config("javascript").unwrap();
    assert_eq!(js.command[0], "node");

    match LanguageConfig::get_config("cobol") {
        Err(e) => assert_eq!(e.kind, ErrorKind::InvalidState),
        Ok(_) => panic!("an unsupported language must be refused"),
    }
}

#[test]
fn section_extraction() {
    let doc = "intro\n## ONE\nalpha\nbeta\n## TWO\ngamma\n";
    assert_eq!(extract_section(doc, "## ONE", "## TWO"), Some(String::from("\nalpha\nbeta\n")));
    assert_eq!(extract_section(doc, "## TWO", "## THREE"), Some(String::from("\ngamma\n")));
    assert_eq!(extract_section(doc, "## FOUR", "## TWO"), None);
}

#[test]
fn topic_inference() {
    assert_eq!(infer_topic("How do you assign a VALUE to a variable?"), "variables");
    assert_eq!(infer_topic("What does a lambda expression do?"), "lambda");
    assert_eq!(infer_topic("Pick the right dictionary literal"), "dictionaries");
    assert_eq!(infer_topic("Nothing matches here?!"), "general");
    // Priority order: "variable" wins over the later "loop" family.
    assert_eq!(infer_topic("variable inside a loop"), "variables");
}
