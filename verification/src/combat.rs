//! The turn-based combat engine: damage resolution, one full combat round,
//! and the victory / defeat payouts.
//!
//! Damage resolution is split in two layers. The `resolve_*` functions are
//! deterministic: they take the critical / dodge outcome as an argument and
//! their result is pinned down exactly. The `calculate_*` functions draw the
//! chance rolls and hand them to the deterministic layer, so their contracts
//! hold for every value the dice can take.

use vstd::prelude::*;
use crate::errors::{ErrorKind, GameError};
use crate::rng::{roll_permille, sample_inclusive, PERMILLE_SCALE};
use crate::stats::{CharacterStats, StatsView, MAX_AMOUNT, MAX_LEVEL, MAX_RATIO_PERMILLE,
    MAX_RESOURCE};
use crate::currency::{spec_add_currency, CurrencyKind, UserCurrency};
use crate::progress::{DungeonProgressView, UserDungeonProgress};

verus! {

/// What an ability does when it lands.
#[derive(Clone, Copy, Debug, PartialEq, Eq, Structural)]
pub enum AbilityType {
    /// The computed value is dealt to the enemy.
    Attack,
    /// The computed value heals the caster; the enemy is untouched.
    Heal,
    /// Anything else the catalog declares; treated like an attack.
    Other,
}

/// Which base attribute scales an ability's value. A catalog row naming no
/// recognized attribute contributes nothing.
#[derive(Clone, Copy, Debug, PartialEq, Eq, Structural)]
pub enum ScalingStat {
    Strength,
    Intelligence,
    Dexterity,
    Unscaled,
}

/// A combat ability from the content catalog; read-only at combat time.
/// The scaling ratio is fixed-point on the per-mille scale: 500 means the
/// ability gains `floor(stat * 0.5)`.
#[derive(Clone, Debug)]
pub struct Ability {
    pub id: String,
    pub name: String,
    pub description: String,
    pub ability_type: AbilityType,
    pub required_level: i64,
    pub mana_cost: i64,
    pub cooldown_turns: i64,
    pub base_value: i64,
    pub scaling_stat: ScalingStat,
    pub scaling_ratio_permille: i64,
    pub additional_effects: Option<String>,
    pub icon: String,
    pub animation_text: String,
}

/// Mathematical view of [`Ability`]: the fields combat arithmetic reads.
pub struct AbilityView {
    pub ability_type: AbilityType,
    pub required_level: int,
    pub mana_cost: int,
    pub cooldown_turns: int,
    pub base_value: int,
    pub scaling_stat: ScalingStat,
    pub scaling_ratio_permille: int,
}

impl View for Ability {
    type V = AbilityView;

    open spec fn view(&self) -> AbilityView {
        AbilityView {
            ability_type: self.ability_type,
            required_level: self.required_level as int,
            mana_cost: self.mana_cost as int,
            cooldown_turns: self.cooldown_turns as int,
            base_value: self.base_value as int,
            scaling_stat: self.scaling_stat,
            scaling_ratio_permille: self.scaling_ratio_permille as int,
        }
    }
}

impl Ability {
    pub open spec fn wf(&self) -> bool {
        &&& 0 <= self@.required_level <= MAX_LEVEL
        &&& 0 <= self@.mana_cost <= MAX_AMOUNT
        &&& 0 <= self@.cooldown_turns <= MAX_AMOUNT
        &&& 0 <= self@.base_value <= MAX_AMOUNT
        &&& 0 <= self@.scaling_ratio_permille <= MAX_RATIO_PERMILLE
    }
}

/// An enemy archetype from the content catalog.
#[derive(Clone, Debug)]
pub struct EnemyType {
    pub id: String,
    pub name: String,
    pub description: String,
    pub base_health: i64,
    pub base_damage: i64,
    pub base_defense: i64,
    pub behavior_type: String,
    pub gold_drop_min: i64,
    pub gold_drop_max: i64,
    pub xp_reward: i64,
    pub loot_table: Option<String>,
    pub icon: String,
    pub ascii_art: Option<String>,
}

impl EnemyType {
    /// Catalog sanity: positive health, bounded damage and defense, and a
    /// non-empty, non-negative gold drop range.
    pub open spec fn wf(&self) -> bool {
        &&& 1 <= self.base_health <= MAX_RESOURCE
        &&& 0 <= self.base_damage <= MAX_AMOUNT
        &&& 0 <= self.base_defense <= MAX_RESOURCE
        &&& 0 <= self.gold_drop_min <= self.gold_drop_max <= MAX_AMOUNT
        &&& 0 <= self.xp_reward <= MAX_AMOUNT
    }
}

/// A boss from the content catalog.
#[derive(Clone, Debug)]
pub struct BossEnemy {
    pub id: String,
    pub name: String,
    pub description: String,
    pub floor_number: i64,
    pub health: i64,
    pub damage: i64,
    pub defense: i64,
    pub abilities: String,
    pub phases: Option<String>,
    pub gold_reward: i64,
    pub xp_reward: i64,
    pub guaranteed_loot: Option<String>,
    pub icon: String,
    pub ascii_art: Option<String>,
}

impl BossEnemy {
    pub open spec fn wf(&self) -> bool {
        &&& 1 <= self.health <= MAX_RESOURCE
        &&& 0 <= self.damage <= MAX_AMOUNT
        &&& 0 <= self.defense <= MAX_RESOURCE
        &&& 0 <= self.gold_reward <= MAX_AMOUNT
        &&& 0 <= self.xp_reward <= MAX_AMOUNT
    }
}

/// One user's live combat session: a snapshot of the enemy plus the turn
/// counter. The cooldown / buff / debuff blobs are carried but not yet read
/// back by the engine, matching the catalog's declared-but-unenforced state.
#[derive(Clone, Debug)]
pub struct ActiveCombat {
    pub user_id: i64,
    pub enemy_id: String,
    pub enemy_name: String,
    pub enemy_current_health: i64,
    pub enemy_max_health: i64,
    pub enemy_damage: i64,
    pub enemy_defense: i64,
    pub is_boss: bool,
    pub icon: String,
    pub combat_turn: i64,
    pub ability_cooldowns: Option<String>,
    pub active_buffs: Option<String>,
    pub active_debuffs: Option<String>,
}

/// Mathematical view of [`ActiveCombat`].
pub struct CombatView {
    pub user_id: int,
    pub enemy_id: Seq<char>,
    pub enemy_name: Seq<char>,
    pub enemy_current_health: int,
    pub enemy_max_health: int,
    pub enemy_damage: int,
    pub enemy_defense: int,
    pub is_boss: bool,
    pub icon: Seq<char>,
    pub combat_turn: int,
    pub ability_cooldowns: Option<Seq<char>>,
    pub active_buffs: Option<Seq<char>>,
    pub active_debuffs: Option<Seq<char>>,
}

impl View for ActiveCombat {
    type V = CombatView;

    open spec fn view(&self) -> CombatView {
        CombatView {
            user_id: self.user_id as int,
            enemy_id: self.enemy_id@,
            enemy_name: self.enemy_name@,
            enemy_current_health: self.enemy_current_health as int,
            enemy_max_health: self.enemy_max_health as int,
            enemy_damage: self.enemy_damage as int,
            enemy_defense: self.enemy_defense as int,
            is_boss: self.is_boss,
            icon: self.icon@,
            combat_turn: self.combat_turn as int,
            ability_cooldowns: match self.ability_cooldowns {
                Some(ref s) => Some(s@),
                None => None,
            },
            active_buffs: match self.active_buffs {
                Some(ref s) => Some(s@),
                None => None,
            },
            active_debuffs: match self.active_debuffs {
                Some(ref s) => Some(s@),
                None => None,
            },
        }
    }
}

impl ActiveCombat {
    pub open spec fn wf(&self) -> bool {
        &&& 0 <= self@.enemy_current_health <= self@.enemy_max_health <= MAX_RESOURCE
        &&& 0 <= self@.enemy_damage <= MAX_AMOUNT
        &&& 0 <= self@.enemy_defense <= MAX_RESOURCE
        &&& 0 <= self@.combat_turn <= MAX_RESOURCE
    }
}

/// The outcome of one attack resolution.
#[derive(Clone, Copy, Debug)]
pub struct DamageResult {
    pub damage: i64,
    pub is_critical: bool,
    pub is_dodged: bool,
}

/// The value of the attribute an ability scales with.
pub open spec fn spec_scaling_value(s: StatsView, a: AbilityView) -> int {
    match a.scaling_stat {
        ScalingStat::Strength => s.strength,
        ScalingStat::Intelligence => s.intelligence,
        ScalingStat::Dexterity => s.dexterity,
        ScalingStat::Unscaled => 0,
    }
}

/// Player damage: ability base plus the floored attribute bonus, halved
/// (floored) when the embedded coding challenge failed, doubled on a
/// critical hit. The halving happens before the doubling.
pub open spec fn spec_player_damage(
    s: StatsView,
    a: AbilityView,
    challenge_success: bool,
    is_critical: bool,
) -> int {
    let base = a.base_value + spec_scaling_value(s, a) * a.scaling_ratio_permille / (
    PERMILLE_SCALE as int);
    let adjusted = if challenge_success {
        base
    } else {
        base / 2
    };
    if is_critical {
        adjusted * 2
    } else {
        adjusted
    }
}

/// Enemy damage: a dodge is absolute and deals 0; otherwise defense reduces
/// the raw attack but never below 1 point of chip damage.
pub open spec fn spec_enemy_damage(s: StatsView, enemy_base_damage: int, is_dodged: bool) -> int {
    if is_dodged {
        0
    } else if enemy_base_damage - s.defense > 1 {
        enemy_base_damage - s.defense
    } else {
        1
    }
}

/// Law: with a positive raw attack, an undodged hit deals between 1 and the
/// raw attack however high the defense, and a dodged hit deals exactly 0.
/// (A raw attack of 0 still chips for 1 when not dodged, so it sits above
/// the raw value and is left out here.)
pub proof fn lemma_enemy_damage_floor(s: StatsView, enemy_base_damage: int, is_dodged: bool)
    requires
        0 <= s.defense,
        1 <= enemy_base_damage,
    ensures
        is_dodged ==> spec_enemy_damage(s, enemy_base_damage, is_dodged) == 0,
        !is_dodged ==> 1 <= spec_enemy_damage(s, enemy_base_damage, is_dodged)
            <= enemy_base_damage,
{
}

/// Law: for fixed stats, ability and challenge outcome, a critical hit deals
/// exactly twice the damage of the same non-critical hit.
pub proof fn lemma_critical_doubles_damage(s: StatsView, a: AbilityView, challenge_success: bool)
    ensures
        spec_player_damage(s, a, challenge_success, true) == 2 * spec_player_damage(
            s,
            a,
            challenge_success,
            false,
        ),
{
}

/// Deterministic player damage: the critical outcome is an argument.
pub fn resolve_player_damage(
    stats: &CharacterStats,
    ability: &Ability,
    challenge_success: bool,
    is_critical: bool,
) -> (damage: i64)
    requires
        stats.wf(),
        ability.wf(),
    ensures
        damage == spec_player_damage(stats@, ability@, challenge_success, is_critical),
        0 <= damage <= 4 * MAX_AMOUNT,
{
    let stat_value: i64 = match ability.scaling_stat {
        ScalingStat::Strength => stats.strength,
        ScalingStat::Intelligence => stats.intelligence,
        ScalingStat::Dexterity => stats.dexterity,
        ScalingStat::Unscaled => 0,
    };
    proof {
        assert(0 <= stat_value * ability.scaling_ratio_permille <= 1_000_000_000_000) by (nonlinear_arith)
            requires
                0 <= stat_value <= 1_000_000,
                0 <= ability.scaling_ratio_permille <= 1_000_000,
        ;
    }
    let bonus: i64 = stat_value * ability.scaling_ratio_permille / PERMILLE_SCALE;
    let mut damage: i64 = ability.base_value + bonus;
    if !challenge_success {
        damage = damage / 2;
    }
    if is_critical {
        damage = damage * 2;
    }
    damage
}

/// Player damage with the critical roll drawn here: a uniform per-mille draw
/// under the character's critical chance fires the doubling. The damage is
/// exact for whichever way the roll went, reported in `is_critical`.
pub fn calculate_player_damage(
    stats: &CharacterStats,
    ability: &Ability,
    challenge_success: bool,
) -> (r: DamageResult)
    requires
        stats.wf(),
        ability.wf(),
    ensures
        r.damage == spec_player_damage(stats@, ability@, challenge_success, r.is_critical),
        0 <= r.damage <= 4 * MAX_AMOUNT,
        !r.is_dodged,
{
    let roll: i64 = roll_permille();
    let is_critical = roll < stats.critical_chance_permille;
    let damage = resolve_player_damage(stats, ability, challenge_success, is_critical);
    DamageResult { damage, is_critical, is_dodged: false }
}

/// Deterministic enemy damage: the dodge outcome is an argument.
pub fn resolve_enemy_damage(
    stats: &CharacterStats,
    enemy_base_damage: i64,
    is_dodged: bool,
) -> (damage: i64)
    requires
        stats.wf(),
        0 <= enemy_base_damage <= MAX_AMOUNT,
    ensures
        damage == spec_enemy_damage(stats@, enemy_base_damage as int, is_dodged),
        0 <= damage <= MAX_AMOUNT,
{
    if is_dodged {
        return 0;
    }
    let reduced: i64 = enemy_base_damage - stats.defense;
    if reduced > 1 {
        reduced
    } else {
        1
    }
}

/// Enemy damage with the dodge roll drawn here: a uniform per-mille draw
/// under the character's dodge chance negates the attack entirely. The
/// damage is exact for whichever way the roll went, reported in `is_dodged`.
pub fn calculate_enemy_damage(stats: &CharacterStats, enemy_base_damage: i64) -> (r: DamageResult)
    requires
        stats.wf(),
        0 <= enemy_base_damage <= MAX_AMOUNT,
    ensures
        r.damage == spec_enemy_damage(stats@, enemy_base_damage as int, r.is_dodged),
        0 <= r.damage <= MAX_AMOUNT,
        !r.is_critical,
{
    let roll: i64 = roll_permille();
    let is_dodged = roll < stats.dodge_chance_permille;
    let damage = resolve_enemy_damage(stats, enemy_base_damage, is_dodged);
    DamageResult { damage, is_critical: false, is_dodged }
}

/// What one combat round reports back to the caller.
#[derive(Clone, Copy, Debug)]
pub struct CombatTurnResult {
    pub player_damage_dealt: i64,
    pub player_damage_taken: i64,
    pub enemy_current_health: i64,
    pub player_current_health: i64,
    pub player_current_mana: i64,
    pub enemy_defeated: bool,
    pub player_defeated: bool,
    pub is_critical: bool,
    pub is_dodged: bool,
    pub turn_number: i64,
}

/// Mathematical view of [`CombatTurnResult`].
pub struct TurnResultView {
    pub player_damage_dealt: int,
    pub player_damage_taken: int,
    pub enemy_current_health: int,
    pub player_current_health: int,
    pub player_current_mana: int,
    pub enemy_defeated: bool,
    pub player_defeated: bool,
    pub is_critical: bool,
    pub is_dodged: bool,
    pub turn_number: int,
}

impl View for CombatTurnResult {
    type V = TurnResultView;

    open spec fn view(&self) -> TurnResultView {
        TurnResultView {
            player_damage_dealt: self.player_damage_dealt as int,
            player_damage_taken: self.player_damage_taken as int,
            enemy_current_health: self.enemy_current_health as int,
            player_current_health: self.player_current_health as int,
            player_current_mana: self.player_current_mana as int,
            enemy_defeated: self.enemy_defeated,
            player_defeated: self.player_defeated,
            is_critical: self.is_critical,
            is_dodged: self.is_dodged,
            turn_number: self.turn_number as int,
        }
    }
}

/// Everything one combat round changes: the report, the character sheet and
/// the session.
pub struct TurnView {
    pub result: TurnResultView,
    pub stats: StatsView,
    pub session: CombatView,
}

/// One full combat round, as a function of the two chance outcomes.
///
/// The player acts first: a heal is redirected to the caster's health pool
/// and deals 0 to the enemy, anything else is dealt to the enemy, floored at
/// 0 health. Mana is deducted. Only if the enemy survives does it retaliate
/// with the session's snapshot damage; defeating the enemy this round fully
/// skips its attack. The turn counter advances by one either way.
pub open spec fn spec_execute_turn(
    s: StatsView,
    a: AbilityView,
    c: CombatView,
    challenge_success: bool,
    is_critical: bool,
    is_dodged: bool,
) -> TurnView {
    let value = spec_player_damage(s, a, challenge_success, is_critical);
    let is_heal = a.ability_type == AbilityType::Heal;
    let healed_health = if s.current_health + value < s.max_health {
        s.current_health + value
    } else {
        s.max_health
    };
    let health_after_action = if is_heal {
        healed_health
    } else {
        s.current_health
    };
    let dealt = if is_heal {
        0
    } else {
        value
    };
    let new_enemy_health = if c.enemy_current_health - dealt > 0 {
        c.enemy_current_health - dealt
    } else {
        0
    };
    let enemy_defeated = new_enemy_health <= 0;
    let new_mana = s.current_mana - a.mana_cost;
    let taken = if enemy_defeated {
        0
    } else {
        spec_enemy_damage(s, c.enemy_damage, is_dodged)
    };
    let final_health = if enemy_defeated {
        health_after_action
    } else if health_after_action - taken > 0 {
        health_after_action - taken
    } else {
        0
    };
    let player_defeated = !enemy_defeated && final_health <= 0;
    TurnView {
        result: TurnResultView {
            player_damage_dealt: dealt,
            player_damage_taken: taken,
            enemy_current_health: new_enemy_health,
            player_current_health: final_health,
            player_current_mana: new_mana,
            enemy_defeated: enemy_defeated,
            player_defeated: player_defeated,
            is_critical: is_critical,
            is_dodged: false,
            turn_number: c.combat_turn + 1,
        },
        stats: StatsView { current_health: final_health, current_mana: new_mana, ..s },
        session: CombatView {
            enemy_current_health: new_enemy_health,
            combat_turn: c.combat_turn + 1,
            ..c
        },
    }
}

/// One combat round with both chance outcomes supplied by the caller.
///
/// Fails with [`ErrorKind::InsufficientResource`] exactly when current mana
/// does not cover the ability's cost; nothing changes in that case. On
/// success the round follows [`spec_execute_turn`] precisely; in particular
/// a heal leaves the enemy untouched, and a round that defeats the enemy
/// leaves player health exactly where the player's own action put it.
pub fn execute_combat_turn_with_rolls(
    stats: &CharacterStats,
    ability: &Ability,
    session: &ActiveCombat,
    challenge_success: bool,
    is_critical: bool,
    is_dodged: bool,
) -> (r: Result<(CombatTurnResult, CharacterStats, ActiveCombat), GameError>)
    requires
        stats.wf(),
        ability.wf(),
        session.wf(),
        session@.enemy_current_health >= 1,
    ensures
        r is Err <==> stats@.current_mana < ability@.mana_cost,
        r matches Err(e) ==> e.kind == ErrorKind::InsufficientResource,
        r matches Ok(t) ==> {
            let turn = spec_execute_turn(
                stats@,
                ability@,
                session@,
                challenge_success,
                is_critical,
                is_dodged,
            );
            &&& t.0@ == turn.result
            &&& t.1@ == turn.stats
            &&& t.2@ == turn.session
        },
        r matches Ok(t) ==> (ability@.ability_type == AbilityType::Heal
            ==> t.2@.enemy_current_health == session@.enemy_current_health),
        r matches Ok(t) ==> (t.0.enemy_defeated ==> t.0.player_damage_taken == 0
            && t.1@.current_health == stats@.current_health),
{
    if stats.current_mana < ability.mana_cost {
        return Err(GameError::insufficient_resource(String::from_str("Not enough mana")));
    }
    let value: i64 = resolve_player_damage(stats, ability, challenge_success, is_critical);
    let is_heal = ability.ability_type == AbilityType::Heal;

    let mut new_player_health: i64 = stats.current_health;
    let mut dealt: i64 = value;
    if is_heal {
        let healed: i64 = stats.current_health + value;
        new_player_health = if healed < stats.max_health {
            healed
        } else {
            stats.max_health
        };
        dealt = 0;
    }

    let lowered: i64 = session.enemy_current_health - dealt;
    let new_enemy_health: i64 = if lowered > 0 {
        lowered
    } else {
        0
    };
    let enemy_defeated = new_enemy_health <= 0;
    let new_mana: i64 = stats.current_mana - ability.mana_cost;

    let mut taken: i64 = 0;
    let mut player_defeated = false;
    if !enemy_defeated {
        taken = resolve_enemy_damage(stats, session.enemy_damage, is_dodged);
        let hurt: i64 = new_player_health - taken;
        new_player_health = if hurt > 0 {
            hurt
        } else {
            0
        };
        player_defeated = new_player_health <= 0;
    }

    let new_turn: i64 = session.combat_turn + 1;

    let result = CombatTurnResult {
        player_damage_dealt: dealt,
        player_damage_taken: taken,
        enemy_current_health: new_enemy_health,
        player_current_health: new_player_health,
        player_current_mana: new_mana,
        enemy_defeated,
        player_defeated,
        is_critical,
        is_dodged: false,
        turn_number: new_turn,
    };

    let mut new_stats = *stats;
    new_stats.current_health = new_player_health;
    new_stats.current_mana = new_mana;

    let new_session = ActiveCombat {
        user_id: session.user_id,
        enemy_id: session.enemy_id.clone(),
        enemy_name: session.enemy_name.clone(),
        enemy_current_health: new_enemy_health,
        enemy_max_health: session.enemy_max_health,
        enemy_damage: session.enemy_damage,
        enemy_defense: session.enemy_defense,
        is_boss: session.is_boss,
        icon: session.icon.clone(),
        combat_turn: new_turn,
        ability_cooldowns: match session.ability_cooldowns {
            Some(ref s) => Some(s.clone()),
            None => None,
        },
        active_buffs: match session.active_buffs {
            Some(ref s) => Some(s.clone()),
            None => None,
        },
        active_debuffs: match session.active_debuffs {
            Some(ref s) => Some(s.clone()),
            None => None,
        },
    };

    Ok((result, new_stats, new_session))
}

/// One combat round with the chance rolls drawn here. The round is exact
/// once the rolls are fixed: the reported `is_critical` flag names the
/// critical outcome, and the states match [`spec_execute_turn`] for that
/// flag and one of the two dodge outcomes.
pub fn execute_combat_turn(
    stats: &CharacterStats,
    ability: &Ability,
    session: &ActiveCombat,
    challenge_success: bool,
) -> (r: Result<(CombatTurnResult, CharacterStats, ActiveCombat), GameError>)
    requires
        stats.wf(),
        ability.wf(),
        session.wf(),
        session@.enemy_current_health >= 1,
    ensures
        r is Err <==> stats@.current_mana < ability@.mana_cost,
        r matches Err(e) ==> e.kind == ErrorKind::InsufficientResource,
        r matches Ok(t) ==> {
            let with_dodge = spec_execute_turn(
                stats@,
                ability@,
                session@,
                challenge_success,
                t.0.is_critical,
                true,
            );
            let without_dodge = spec_execute_turn(
                stats@,
                ability@,
                session@,
                challenge_success,
                t.0.is_critical,
                false,
            );
            ||| (t.0@ == with_dodge.result && t.1@ == with_dodge.stats && t.2@
                == with_dodge.session)
            ||| (t.0@ == without_dodge.result && t.1@ == without_dodge.stats && t.2@
                == without_dodge.session)
        },
        r matches Ok(t) ==> (ability@.ability_type == AbilityType::Heal
            ==> t.2@.enemy_current_health == session@.enemy_current_health),
        r matches Ok(t) ==> (t.0.enemy_defeated ==> t.0.player_damage_taken == 0
            && t.1@.current_health == stats@.current_health),
{
    let crit_roll: i64 = roll_permille();
    let is_critical = crit_roll < stats.critical_chance_permille;
    let dodge_roll: i64 = roll_permille();
    let is_dodged = dodge_roll < stats.dodge_chance_permille;
    execute_combat_turn_with_rolls(stats, ability, session, challenge_success, is_critical,
        is_dodged)
}

/// Open a fight against a regular enemy: snapshot its stats into a fresh
/// session at turn 0 and flag the dungeon record as in combat.
pub fn start_combat(user_id: i64, enemy: &EnemyType, progress: &UserDungeonProgress) -> (r: (
    ActiveCombat,
    UserDungeonProgress,
))
    requires
        enemy.wf(),
        progress.wf(),
    ensures
        r.0@ == (CombatView {
            user_id: user_id as int,
            enemy_id: enemy.id@,
            enemy_name: enemy.name@,
            enemy_current_health: enemy.base_health as int,
            enemy_max_health: enemy.base_health as int,
            enemy_damage: enemy.base_damage as int,
            enemy_defense: enemy.base_defense as int,
            is_boss: false,
            icon: enemy.icon@,
            combat_turn: 0,
            ability_cooldowns: Some("{}"@),
            active_buffs: Some("[]"@),
            active_debuffs: Some("[]"@),
        }),
        r.0.wf(),
        r.0@.enemy_current_health >= 1,
        r.1@ == (DungeonProgressView {
            in_combat: true,
            current_enemy_id: Some(enemy.id@),
            current_enemy_health: Some(enemy.base_health as int),
            ..progress@
        }),
{
    let session = ActiveCombat {
        user_id,
        enemy_id: enemy.id.clone(),
        enemy_name: enemy.name.clone(),
        enemy_current_health: enemy.base_health,
        enemy_max_health: enemy.base_health,
        enemy_damage: enemy.base_damage,
        enemy_defense: enemy.base_defense,
        is_boss: false,
        icon: enemy.icon.clone(),
        combat_turn: 0,
        ability_cooldowns: Some(String::from_str("{}")),
        active_buffs: Some(String::from_str("[]")),
        active_debuffs: Some(String::from_str("[]")),
    };
    let mut new_progress = progress.duplicate();
    new_progress.in_combat = true;
    new_progress.current_enemy_id = Some(enemy.id.clone());
    new_progress.current_enemy_health = Some(enemy.base_health);
    (session, new_progress)
}

/// Open a boss fight: as [`start_combat`], with the boss flag set.
pub fn start_boss_combat(user_id: i64, boss: &BossEnemy, progress: &UserDungeonProgress) -> (r: (
    ActiveCombat,
    UserDungeonProgress,
))
    requires
        boss.wf(),
        progress.wf(),
    ensures
        r.0@ == (CombatView {
            user_id: user_id as int,
            enemy_id: boss.id@,
            enemy_name: boss.name@,
            enemy_current_health: boss.health as int,
            enemy_max_health: boss.health as int,
            enemy_damage: boss.damage as int,
            enemy_defense: boss.defense as int,
            is_boss: true,
            icon: boss.icon@,
            combat_turn: 0,
            ability_cooldowns: Some("{}"@),
            active_buffs: Some("[]"@),
            active_debuffs: Some("[]"@),
        }),
        r.0.wf(),
        r.0@.enemy_current_health >= 1,
        r.1@ == (DungeonProgressView {
            in_combat: true,
            current_enemy_id: Some(boss.id@),
            current_enemy_health: Some(boss.health as int),
            ..progress@
        }),
{
    let session = ActiveCombat {
        user_id,
        enemy_id: boss.id.clone(),
        enemy_name: boss.name.clone(),
        enemy_current_health: boss.health,
        enemy_max_health: boss.health,
        enemy_damage: boss.damage,
        enemy_defense: boss.defense,
        is_boss: true,
        icon: boss.icon.clone(),
        combat_turn: 0,
        ability_cooldowns: Some(String::from_str("{}")),
        active_buffs: Some(String::from_str("[]")),
        active_debuffs: Some(String::from_str("[]")),
    };
    let mut new_progress = progress.duplicate();
    new_progress.in_combat = true;
    new_progress.current_enemy_id = Some(boss.id.clone());
    new_progress.current_enemy_health = Some(boss.health);
    (session, new_progress)
}

/// What a won fight pays out.
#[derive(Clone, Debug)]
pub struct CombatRewards {
    pub xp_gained: i64,
    pub gold_gained: i64,
    pub items_looted: Vec<String>,
}

/// Close a fight as a victory: gold drawn uniformly from the enemy's drop
/// range is credited to the lifetime ledger, the dungeon record leaves
/// combat and its tallies grow by the kill, the gold and the enemy's fixed
/// experience reward. Item drops are a declared extension point and stay
/// empty.
pub fn end_combat_victory(
    currency: &UserCurrency,
    progress: &UserDungeonProgress,
    enemy: &EnemyType,
) -> (r: (CombatRewards, UserCurrency, UserDungeonProgress))
    requires
        currency.wf(),
        progress.wf(),
        enemy.wf(),
    ensures
        enemy.gold_drop_min <= r.0.gold_gained <= enemy.gold_drop_max,
        r.0.xp_gained == enemy.xp_reward,
        r.0.items_looted@.len() == 0,
        r.1@ == spec_add_currency(currency@, CurrencyKind::Gold, r.0.gold_gained as int),
        r.2@ == (DungeonProgressView {
            in_combat: false,
            current_enemy_id: None,
            current_enemy_health: None,
            total_enemies_defeated: progress@.total_enemies_defeated + 1,
            total_gold_earned: progress@.total_gold_earned + r.0.gold_gained,
            total_xp_earned: progress@.total_xp_earned + enemy.xp_reward,
            ..progress@
        }),
{
    let gold_gained: i64 = sample_inclusive(enemy.gold_drop_min, enemy.gold_drop_max);
    let new_currency = crate::currency::add_currency(currency, CurrencyKind::Gold, gold_gained);
    let mut new_progress = progress.duplicate();
    new_progress.in_combat = false;
    new_progress.current_enemy_id = None;
    new_progress.current_enemy_health = None;
    new_progress.total_enemies_defeated = progress.total_enemies_defeated + 1;
    new_progress.total_gold_earned = progress.total_gold_earned + gold_gained;
    new_progress.total_xp_earned = progress.total_xp_earned + enemy.xp_reward;
    let rewards = CombatRewards { xp_gained: enemy.xp_reward, gold_gained, items_looted: Vec::new() };
    (rewards, new_currency, new_progress)
}

/// Close a fight as a defeat: a tenth of the gold balance (floored) is
/// forfeited, the dungeon record leaves combat and counts a death, and both
/// pools are restored to their maxima — defeat is a respawn, not a hard
/// stop. The lifetime-earned counter is untouched by the penalty.
pub fn end_combat_defeat(
    stats: &CharacterStats,
    currency: &UserCurrency,
    progress: &UserDungeonProgress,
) -> (r: (CharacterStats, UserCurrency, UserDungeonProgress))
    requires
        stats.wf(),
        currency.wf(),
        progress.wf(),
    ensures
        r.0@ == (StatsView {
            current_health: stats@.max_health,
            current_mana: stats@.max_mana,
            ..stats@
        }),
        r.1@ == (crate::currency::CurrencyView { gold: currency@.gold - currency@.gold / 10, ..currency@ }),
        r.2@ == (DungeonProgressView {
            in_combat: false,
            current_enemy_id: None,
            current_enemy_health: None,
            total_deaths: progress@.total_deaths + 1,
            ..progress@
        }),
{
    let gold_lost: i64 = currency.gold / 10;
    let mut new_currency = *currency;
    new_currency.gold = currency.gold - gold_lost;
    let mut new_progress = progress.duplicate();
    new_progress.in_combat = false;
    new_progress.current_enemy_id = None;
    new_progress.current_enemy_health = None;
    new_progress.total_deaths = progress.total_deaths + 1;
    let new_stats = crate::stats::restore_health_and_mana(stats);
    (new_stats, new_currency, new_progress)
}


/// The total spawn weight of a floor's enemy table.
pub open spec fn spec_total_weight(s: Seq<(EnemyType, i64)>) -> int
    decreases s.len(),
{
    if s.len() == 0 {
        0
    } else {
        s.first().1 + spec_total_weight(s.drop_first())
    }
}

/// Which table entry a roll lands on: walk the entries, and the first one
/// whose weight exceeds what is left of the roll wins.
pub open spec fn spec_weighted_pick(s: Seq<(EnemyType, i64)>, roll: int) -> int
    decreases s.len(),
{
    if s.len() == 0 {
        0
    } else if roll < s.first().1 {
        0
    } else {
        1 + spec_weighted_pick(s.drop_first(), roll - s.first().1)
    }
}

/// A table of non-negative weights has a non-negative total.
pub proof fn lemma_total_weight_nonneg(s: Seq<(EnemyType, i64)>)
    requires
        forall|i: int| 0 <= i < s.len() ==> (#[trigger] s[i]).1 >= 0,
    ensures
        spec_total_weight(s) >= 0,
    decreases s.len(),
{
    if s.len() > 0 {
        assert(forall|i: int|
            0 <= i < s.drop_first().len() ==> (#[trigger] s.drop_first()[i]).1 >= 0);
        lemma_total_weight_nonneg(s.drop_first());
        assert(s.first() == s[0]);
    }
}

/// Weights covering the roll always land the pick inside the table.
pub proof fn lemma_weighted_pick_in_range(s: Seq<(EnemyType, i64)>, roll: int)
    requires
        0 <= roll < spec_total_weight(s),
        forall|i: int| 0 <= i < s.len() ==> (#[trigger] s[i]).1 >= 1,
    ensures
        0 <= spec_weighted_pick(s, roll) < s.len(),
    decreases s.len(),
{
    if s.len() > 0 && roll >= s.first().1 {
        assert(forall|i: int|
            0 <= i < s.drop_first().len() ==> (#[trigger] s.drop_first()[i]).1 >= 1);
        lemma_weighted_pick_in_range(s.drop_first(), roll - s.first().1);
    }
}

/// The deterministic half of weighted spawning: which entry a given roll
/// selects.
#[verifier::loop_isolation(false)]
pub fn select_enemy_by_roll(enemies: &Vec<(EnemyType, i64)>, roll: i64) -> (r: usize)
    requires
        enemies@.len() >= 1,
        enemies@.len() <= 1_000_000,
        forall|i: int| 0 <= i < enemies@.len() ==> 1 <= (#[trigger] enemies@[i]).1 <= MAX_AMOUNT,
        0 <= roll < spec_total_weight(enemies@),
    ensures
        r < enemies@.len(),
        r == spec_weighted_pick(enemies@, roll as int),
{
    proof {
        lemma_weighted_pick_in_range(enemies@, roll as int);
        assert(enemies@.skip(0) =~= enemies@);
    }
    let n: usize = enemies.len();
    let mut i: usize = 0;
    let mut rest: i64 = roll;
    while i < n
        invariant
            0 <= i <= n,
            n == enemies@.len(),
            0 <= rest <= roll,
            0 <= rest < spec_total_weight(enemies@.skip(i as int)),
            spec_weighted_pick(enemies@, roll as int) == i + spec_weighted_pick(
                enemies@.skip(i as int),
                rest as int,
            ),
        decreases n - i,
    {
        proof {
            assert(enemies@.skip(i as int).first() == enemies@[i as int]);
            assert(enemies@.skip(i as int).drop_first() =~= enemies@.skip(i as int + 1));
        }
        if rest < enemies[i].1 {
            return i;
        }
        rest = rest - enemies[i].1;
        i = i + 1;
    }
    proof {
        assert(enemies@.skip(n as int) =~= Seq::<(EnemyType, i64)>::empty());
        assert(false);
    }
    0
}

/// Spawn one enemy from a floor's weighted table: a uniform roll over the
/// total weight picks the entry, so every outcome is an in-range index and
/// exact for the roll that was drawn. An empty table fails with
/// [`ErrorKind::NotFound`].
#[verifier::loop_isolation(false)]
pub fn pick_random_enemy(enemies: &Vec<(EnemyType, i64)>) -> (r: Result<usize, GameError>)
    requires
        enemies@.len() <= 1_000_000,
        forall|i: int| 0 <= i < enemies@.len() ==> 1 <= (#[trigger] enemies@[i]).1 <= MAX_AMOUNT,
    ensures
        r is Err <==> enemies@.len() == 0,
        r matches Err(e) ==> e.kind == ErrorKind::NotFound,
        r matches Ok(i) ==> i < enemies@.len() && exists|roll: int|
            0 <= roll < spec_total_weight(enemies@) && i == spec_weighted_pick(enemies@, roll),
{
    if enemies.len() == 0 {
        return Err(GameError::not_found(String::from_str("No enemies found for this floor")));
    }
    let n: usize = enemies.len();
    let mut total: i64 = 0;
    let mut i: usize = 0;
    proof {
        assert(enemies@.skip(0) =~= enemies@);
    }
    while i < n
        invariant
            0 <= i <= n,
            n == enemies@.len(),
            0 <= total <= i * 1_000_000_000int,
            total == spec_total_weight(enemies@) - spec_total_weight(enemies@.skip(i as int)),
        decreases n - i,
    {
        proof {
            assert(enemies@.skip(i as int).first() == enemies@[i as int]);
            assert(enemies@.skip(i as int).drop_first() =~= enemies@.skip(i as int + 1));
        }
        total = total + enemies[i].1;
        i = i + 1;
    }
    proof {
        assert(enemies@.skip(n as int) =~= Seq::<(EnemyType, i64)>::empty());
        assert(total == spec_total_weight(enemies@));
        assert(spec_total_weight(enemies@) >= 1) by {
            assert(forall|j: int|
                0 <= j < enemies@.drop_first().len() ==> (#[trigger] enemies@.drop_first()[j]).1
                    >= 0);
            lemma_total_weight_nonneg(enemies@.drop_first());
            assert(enemies@.first() == enemies@[0]);
        }
    }
    let roll: i64 = sample_inclusive(0, total - 1);
    let pick = select_enemy_by_roll(enemies, roll);
    Ok(pick)
}

} // verus!
