//! Character sheet: base attributes, derived combat stats, the experience
//! curve, and stat-point spending.
//!
//! Chance-valued stats (critical and dodge) are fixed-point integers on a
//! per-mille scale: a stored value of 50 means a 5% chance. The derived-stat
//! formulas land exactly on this scale. Catalog ratios (ability scaling) use
//! the same scale, so `floor(stat * ratio)` becomes `stat * ratio_permille / 1000`.

use vstd::prelude::*;
use crate::errors::{ErrorKind, GameError};
use crate::text::str_eq_chars;

verus! {

/// Bound on a character level; keeps every level-based formula inside `i64`.
pub const MAX_LEVEL: i64 = 1_000_000;
/// Bound on a base attribute (strength, intelligence, dexterity, charisma).
pub const MAX_ATTRIBUTE: i64 = 1_000_000;
/// Bound on a stored resource total (health, mana, gold, experience, ...).
pub const MAX_RESOURCE: i64 = 1_000_000_000_000;
/// Bound on a single catalog amount (ability value, reward, penalty, ...).
pub const MAX_AMOUNT: i64 = 1_000_000_000;
/// Bound on an ability's scaling ratio, on the per-mille scale.
pub const MAX_RATIO_PERMILLE: i64 = 1_000_000;
/// Experience needed per level step is `level * XP_STEP`.
pub const XP_STEP: i64 = 100;

/// One character's stats, one record per user.
#[derive(Clone, Copy, Debug)]
pub struct CharacterStats {
    pub user_id: i64,
    pub level: i64,
    pub strength: i64,
    pub intelligence: i64,
    pub dexterity: i64,
    pub charisma: i64,
    pub max_health: i64,
    pub current_health: i64,
    pub max_mana: i64,
    pub current_mana: i64,
    pub base_damage: i64,
    pub defense: i64,
    /// Critical-hit chance, per mille. Values at or above 1000 always fire.
    pub critical_chance_permille: i64,
    /// Dodge chance, per mille. Values at or above 1000 always fire.
    pub dodge_chance_permille: i64,
    pub stat_points_available: i64,
    /// Dungeon gold balance carried on the character sheet.
    pub current_gold: i64,
}

/// Mathematical view of [`CharacterStats`]: the same fields over `int`.
pub struct StatsView {
    pub user_id: int,
    pub level: int,
    pub strength: int,
    pub intelligence: int,
    pub dexterity: int,
    pub charisma: int,
    pub max_health: int,
    pub current_health: int,
    pub max_mana: int,
    pub current_mana: int,
    pub base_damage: int,
    pub defense: int,
    pub critical_chance_permille: int,
    pub dodge_chance_permille: int,
    pub stat_points_available: int,
    pub current_gold: int,
}

impl View for CharacterStats {
    type V = StatsView;

    open spec fn view(&self) -> StatsView {
        StatsView {
            user_id: self.user_id as int,
            level: self.level as int,
            strength: self.strength as int,
            intelligence: self.intelligence as int,
            dexterity: self.dexterity as int,
            charisma: self.charisma as int,
            max_health: self.max_health as int,
            current_health: self.current_health as int,
            max_mana: self.max_mana as int,
            current_mana: self.current_mana as int,
            base_damage: self.base_damage as int,
            defense: self.defense as int,
            critical_chance_permille: self.critical_chance_permille as int,
            dodge_chance_permille: self.dodge_chance_permille as int,
            stat_points_available: self.stat_points_available as int,
            current_gold: self.current_gold as int,
        }
    }
}

impl StatsView {
    /// Well-formedness: resources sit inside their maxima and every field is
    /// bounded so that the engine's arithmetic stays inside `i64`.
    pub open spec fn wf(self) -> bool {
        &&& 1 <= self.level <= MAX_LEVEL
        &&& 0 <= self.strength <= MAX_ATTRIBUTE
        &&& 0 <= self.intelligence <= MAX_ATTRIBUTE
        &&& 0 <= self.dexterity <= MAX_ATTRIBUTE
        &&& 0 <= self.charisma <= MAX_ATTRIBUTE
        &&& 0 < self.max_health <= MAX_RESOURCE
        &&& 0 <= self.current_health <= self.max_health
        &&& 0 < self.max_mana <= MAX_RESOURCE
        &&& 0 <= self.current_mana <= self.max_mana
        &&& 0 <= self.base_damage <= MAX_AMOUNT
        &&& 0 <= self.defense <= MAX_RESOURCE
        &&& 0 <= self.critical_chance_permille <= MAX_RESOURCE
        &&& 0 <= self.dodge_chance_permille <= MAX_RESOURCE
        &&& 0 <= self.stat_points_available <= MAX_RESOURCE
        &&& 0 <= self.current_gold <= MAX_RESOURCE
    }
}

impl CharacterStats {
    pub open spec fn wf(&self) -> bool {
        self@.wf()
    }

    /// The default sheet a brand-new character starts with.
    pub fn initial(user_id: i64) -> (s: CharacterStats)
        ensures
            s@ == initial_stats_view(user_id as int),
            s.wf(),
    {
        CharacterStats {
            user_id,
            level: 1,
            strength: 1,
            intelligence: 1,
            dexterity: 1,
            charisma: 1,
            max_health: 50,
            current_health: 50,
            max_mana: 30,
            current_mana: 30,
            base_damage: 10,
            defense: 5,
            critical_chance_permille: 50,
            dodge_chance_permille: 50,
            stat_points_available: 2,
            current_gold: 100,
        }
    }
}

/// The starting sheet as a view: level 1, all attributes 1, 50 health,
/// 30 mana, 5% critical and dodge chance, 2 free stat points, 100 gold.
pub open spec fn initial_stats_view(user_id: int) -> StatsView {
    StatsView {
        user_id: user_id,
        level: 1,
        strength: 1,
        intelligence: 1,
        dexterity: 1,
        charisma: 1,
        max_health: 50,
        current_health: 50,
        max_mana: 30,
        current_mana: 30,
        base_damage: 10,
        defense: 5,
        critical_chance_permille: 50,
        dodge_chance_permille: 50,
        stat_points_available: 2,
        current_gold: 100,
    }
}

/// The derived-stat formulas: maximum health grows with level, maximum mana
/// with intelligence, defense with strength, and both chances with dexterity.
pub open spec fn spec_recalculated(s: StatsView) -> StatsView {
    StatsView {
        max_health: 100 + s.level * 10,
        max_mana: 50 + s.intelligence * 2,
        defense: 5 + s.strength / 5,
        critical_chance_permille: 50 + s.dexterity * 5,
        dodge_chance_permille: 50 + s.dexterity * 3,
        ..s
    }
}

/// Recompute the derived stats from level and attributes. Current health and
/// mana are left as they are; only the maxima and chances move.
pub fn recalculate_derived_stats(s: &CharacterStats) -> (r: CharacterStats)
    requires
        1 <= s@.level <= MAX_LEVEL,
        0 <= s@.strength <= 2 * MAX_ATTRIBUTE,
        0 <= s@.intelligence <= 2 * MAX_ATTRIBUTE,
        0 <= s@.dexterity <= 2 * MAX_ATTRIBUTE,
    ensures
        r@ == spec_recalculated(s@),
{
    let mut r = *s;
    r.max_health = 100 + s.level * 10;
    r.max_mana = 50 + s.intelligence * 2;
    r.defense = 5 + s.strength / 5;
    r.critical_chance_permille = 50 + s.dexterity * 5;
    r.dodge_chance_permille = 50 + s.dexterity * 3;
    r
}

/// Where a character lands after gaining experience: the new level, the
/// experience still counting toward the next level, and how many levels were
/// gained. Each step to the next level costs `level * XP_STEP`, so the curve
/// escalates; the loop stops as soon as the remainder no longer covers a step.
pub struct LevelProgression {
    pub level: int,
    pub xp_remaining: int,
    pub levels_gained: int,
}

pub open spec fn spec_level_progression(level: int, xp: int) -> LevelProgression
    recommends
        1 <= level,
        0 <= xp,
    decreases xp, when 1 <= level && 0 <= xp
{
    if 1 <= level && xp >= level * XP_STEP {
        let next = spec_level_progression(level + 1, xp - level * XP_STEP);
        LevelProgression { levels_gained: next.levels_gained + 1, ..next }
    } else {
        LevelProgression { level: level, xp_remaining: xp, levels_gained: 0 }
    }
}

/// Run the experience curve: from `level` with `xp` accumulated experience,
/// return `(new_level, xp_remaining, levels_gained)`.
pub fn apply_level_progression(level: i64, xp: i64) -> (r: (i64, i64, i64))
    requires
        1 <= level <= MAX_LEVEL,
        0 <= xp <= 2 * MAX_RESOURCE,
    ensures
        r.0 == spec_level_progression(level as int, xp as int).level,
        r.1 == spec_level_progression(level as int, xp as int).xp_remaining,
        r.2 == spec_level_progression(level as int, xp as int).levels_gained,
        1 <= r.0,
        0 <= r.1,
        0 <= r.2,
        r.0 == level + r.2,
        XP_STEP * r.2 <= xp,
{
    let ghost target = spec_level_progression(level as int, xp as int);
    let mut lvl: i64 = level;
    let mut rem: i64 = xp;
    let mut gained: i64 = 0;
    while rem >= lvl * XP_STEP
        invariant
            1 <= lvl,
            0 <= rem <= xp,
            0 <= gained,
            lvl == level + gained,
            XP_STEP * gained <= xp - rem,
            target == spec_level_progression(level as int, xp as int),
            target.level == spec_level_progression(lvl as int, rem as int).level,
            target.xp_remaining == spec_level_progression(lvl as int, rem as int).xp_remaining,
            target.levels_gained == gained + spec_level_progression(
                lvl as int,
                rem as int,
            ).levels_gained,
            1 <= level <= MAX_LEVEL,
            0 <= xp <= 2 * MAX_RESOURCE,
        decreases rem,
    {
        rem = rem - lvl * XP_STEP;
        lvl = lvl + 1;
        gained = gained + 1;
    }
    (lvl, rem, gained)
}

/// Restore both pools to their maxima.
pub fn restore_health_and_mana(s: &CharacterStats) -> (r: CharacterStats)
    ensures
        r@ == (StatsView { current_health: s@.max_health, current_mana: s@.max_mana, ..s@ }),
{
    let mut r = *s;
    r.current_health = s.max_health;
    r.current_mana = s.max_mana;
    r
}

/// Spend several stat points at once across the three scaling attributes,
/// recomputing the derived stats afterwards. Fails with
/// [`ErrorKind::InsufficientResource`] exactly when the pool does not cover
/// the total.
pub fn distribute_stat_points(
    s: &CharacterStats,
    strength_increase: i64,
    intelligence_increase: i64,
    dexterity_increase: i64,
) -> (r: Result<CharacterStats, GameError>)
    requires
        s.wf(),
        0 <= strength_increase <= MAX_ATTRIBUTE,
        0 <= intelligence_increase <= MAX_ATTRIBUTE,
        0 <= dexterity_increase <= MAX_ATTRIBUTE,
    ensures
        r is Err <==> s@.stat_points_available < strength_increase + intelligence_increase
            + dexterity_increase,
        r matches Err(e) ==> e.kind == ErrorKind::InsufficientResource,
        r matches Ok(v) ==> v@ == spec_recalculated(
            StatsView {
                strength: s@.strength + strength_increase,
                intelligence: s@.intelligence + intelligence_increase,
                dexterity: s@.dexterity + dexterity_increase,
                stat_points_available: s@.stat_points_available - (strength_increase
                    + intelligence_increase + dexterity_increase),
                ..s@
            },
        ),
{
    let total: i64 = strength_increase + intelligence_increase + dexterity_increase;
    if s.stat_points_available < total {
        return Err(GameError::insufficient_resource(
            String::from_str("Not enough stat points available"),
        ));
    }
    let mut r = *s;
    r.strength = s.strength + strength_increase;
    r.intelligence = s.intelligence + intelligence_increase;
    r.dexterity = s.dexterity + dexterity_increase;
    r.stat_points_available = s.stat_points_available - total;
    Ok(recalculate_derived_stats(&r))
}

/// Spend one stat point on maximum health: +5 to the maximum and +5 to the
/// current pool. Fails exactly when no point is available.
pub fn spend_stat_point_on_health(s: &CharacterStats) -> (r: Result<CharacterStats, GameError>)
    requires
        s.wf(),
    ensures
        r is Err <==> s@.stat_points_available <= 0,
        r matches Err(e) ==> e.kind == ErrorKind::InsufficientResource,
        r matches Ok(v) ==> v@ == (StatsView {
            max_health: s@.max_health + 5,
            current_health: s@.current_health + 5,
            stat_points_available: s@.stat_points_available - 1,
            ..s@
        }),
{
    if s.stat_points_available <= 0 {
        return Err(GameError::insufficient_resource(
            String::from_str("No stat points available"),
        ));
    }
    let mut r = *s;
    r.max_health = s.max_health + 5;
    r.current_health = s.current_health + 5;
    r.stat_points_available = s.stat_points_available - 1;
    Ok(r)
}

/// Spend one stat point on maximum mana: +5 to the maximum and +5 to the
/// current pool. Fails exactly when no point is available.
pub fn spend_stat_point_on_mana(s: &CharacterStats) -> (r: Result<CharacterStats, GameError>)
    requires
        s.wf(),
    ensures
        r is Err <==> s@.stat_points_available <= 0,
        r matches Err(e) ==> e.kind == ErrorKind::InsufficientResource,
        r matches Ok(v) ==> v@ == (StatsView {
            max_mana: s@.max_mana + 5,
            current_mana: s@.current_mana + 5,
            stat_points_available: s@.stat_points_available - 1,
            ..s@
        }),
{
    if s.stat_points_available <= 0 {
        return Err(GameError::insufficient_resource(
            String::from_str("No stat points available"),
        ));
    }
    let mut r = *s;
    r.max_mana = s.max_mana + 5;
    r.current_mana = s.current_mana + 5;
    r.stat_points_available = s.stat_points_available - 1;
    Ok(r)
}

/// Does a name denote one of the four base attributes?
pub open spec fn is_valid_stat_name(name: Seq<char>) -> bool {
    ||| name == "strength"@
    ||| name == "intelligence"@
    ||| name == "dexterity"@
    ||| name == "charisma"@
}

/// The sheet after raising the named attribute by one.
pub open spec fn spec_with_raised_stat(s: StatsView, name: Seq<char>) -> StatsView {
    if name == "strength"@ {
        StatsView { strength: s.strength + 1, ..s }
    } else if name == "intelligence"@ {
        StatsView { intelligence: s.intelligence + 1, ..s }
    } else if name == "dexterity"@ {
        StatsView { dexterity: s.dexterity + 1, ..s }
    } else {
        StatsView { charisma: s.charisma + 1, ..s }
    }
}

/// Spend one stat point on a named base attribute, recomputing the derived
/// stats afterwards. An unrecognized name fails with
/// [`ErrorKind::InvalidState`]; a recognized name with an empty pool fails
/// with [`ErrorKind::InsufficientResource`].
pub fn spend_stat_point_on_stat(
    s: &CharacterStats,
    stat_name: &str,
) -> (r: Result<CharacterStats, GameError>)
    requires
        s.wf(),
    ensures
        !is_valid_stat_name(stat_name@) <==> (r matches Err(e) && e.kind
            == ErrorKind::InvalidState),
        (is_valid_stat_name(stat_name@) && s@.stat_points_available <= 0) <==> (r matches Err(e)
            && e.kind == ErrorKind::InsufficientResource),
        r matches Ok(v) ==> v@ == spec_recalculated(
            spec_with_raised_stat(
                StatsView { stat_points_available: s@.stat_points_available - 1, ..s@ },
                stat_name@,
            ),
        ),
{
    let is_strength = str_eq_chars(stat_name, "strength");
    let is_intelligence = str_eq_chars(stat_name, "intelligence");
    let is_dexterity = str_eq_chars(stat_name, "dexterity");
    let is_charisma = str_eq_chars(stat_name, "charisma");
    if !(is_strength || is_intelligence || is_dexterity || is_charisma) {
        return Err(GameError::invalid_state(String::from_str("Invalid stat name")));
    }
    if s.stat_points_available <= 0 {
        return Err(GameError::insufficient_resource(
            String::from_str("No stat points available"),
        ));
    }
    let mut r = *s;
    r.stat_points_available = s.stat_points_available - 1;
    if is_strength {
        r.strength = r.strength + 1;
    } else if is_intelligence {
        r.intelligence = r.intelligence + 1;
    } else if is_dexterity {
        r.dexterity = r.dexterity + 1;
    } else {
        r.charisma = r.charisma + 1;
    }
    Ok(recalculate_derived_stats(&r))
}

} // verus!
