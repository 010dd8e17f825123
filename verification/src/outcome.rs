//! Outcome application and skill-check resolution: the one routine through
//! which every piece of narrative progression — checked or not — flows.
//!
//! An outcome is applied to the whole player state at once. The position
//! and flag bookkeeping happens on every application; rewards (gold,
//! experience with its leveling loop, healing, items) are granted only the
//! first time a `(choice, outcome type)` pair completes; penalties are
//! taken every single time. The laws at the end of this module pin that
//! split down.

use vstd::prelude::*;
use crate::assoc::{assoc_map, elem_set, lemma_elem_set_contains};
use crate::currency::{CurrencyView, UserCurrency};
use crate::errors::{ErrorKind, GameError};
use crate::narrative::{flag_entries, is_outcome_completed,
    mark_outcome_completed, add_visited_location, set_story_flag, string_views,
    determine_outcome_type, select_outcome_index, spec_outcome_type, spec_selected_outcome,
    HealReward, NarrativeChoice, NarrativeOutcome, NarrativeView, OutcomeType, OutcomeView,
    PenaltiesView, RewardsView, UserNarrativeProgress};
use crate::progress::{DungeonProgressView, UserDungeonProgress};
use crate::stats::{apply_level_progression, spec_level_progression, CharacterStats, StatsView,
    MAX_AMOUNT, MAX_RESOURCE};

verus! {

/// One stack of an owned item: the item's catalog id and how many are held.
#[derive(Debug)]
pub struct ItemStack {
    pub item_id: String,
    pub quantity: i64,
}

impl View for ItemStack {
    type V = (Seq<char>, int);

    open spec fn view(&self) -> (Seq<char>, int) {
        (self.item_id@, self.quantity as int)
    }
}

/// The entry sequence of an inventory vector.
pub open spec fn stack_entries(s: Seq<ItemStack>) -> Seq<(Seq<char>, int)> {
    s.map_values(|x: ItemStack| x@)
}

/// The ids the item catalogs know: outcome item rewards are matched against
/// the consumable catalog first, the equipment catalog second.
#[derive(Debug)]
pub struct ItemCatalog {
    pub consumable_ids: Vec<String>,
    pub equipment_ids: Vec<String>,
}

/// Mathematical view of [`ItemCatalog`].
pub struct CatalogView {
    pub consumable_ids: Set<Seq<char>>,
    pub equipment_ids: Set<Seq<char>>,
}

impl View for ItemCatalog {
    type V = CatalogView;

    open spec fn view(&self) -> CatalogView {
        CatalogView {
            consumable_ids: elem_set(string_views(self.consumable_ids@)),
            equipment_ids: elem_set(string_views(self.equipment_ids@)),
        }
    }
}

/// Everything narrative progression can touch, bundled: the character
/// sheet, both currency ledgers, dungeon tallies, traversal state and the
/// two inventories.
#[derive(Debug)]
pub struct PlayerState {
    pub stats: CharacterStats,
    pub currency: UserCurrency,
    pub dungeon: UserDungeonProgress,
    pub narrative: UserNarrativeProgress,
    pub consumable_inventory: Vec<ItemStack>,
    pub equipment_inventory: Vec<ItemStack>,
}

/// Mathematical view of [`PlayerState`]; the inventories become maps from
/// item id to quantity.
pub struct PlayerView {
    pub stats: StatsView,
    pub currency: CurrencyView,
    pub dungeon: DungeonProgressView,
    pub narrative: NarrativeView,
    pub consumable_inventory: Map<Seq<char>, int>,
    pub equipment_inventory: Map<Seq<char>, int>,
}

impl View for PlayerState {
    type V = PlayerView;

    open spec fn view(&self) -> PlayerView {
        PlayerView {
            stats: self.stats@,
            currency: self.currency@,
            dungeon: self.dungeon@,
            narrative: self.narrative@,
            consumable_inventory: assoc_map(stack_entries(self.consumable_inventory@)),
            equipment_inventory: assoc_map(stack_entries(self.equipment_inventory@)),
        }
    }
}

/// One inventory vector is well-formed: ids unique, quantities bounded.
pub open spec fn inventory_wf(s: Seq<ItemStack>) -> bool {
    &&& forall|i: int, j: int|
        0 <= i < j < s.len() ==> (#[trigger] s[i])@.0 != (#[trigger] s[j])@.0
    &&& forall|i: int| 0 <= i < s.len() ==> 0 <= (#[trigger] s[i])@.1 <= MAX_RESOURCE
}

impl PlayerState {
    pub open spec fn wf(&self) -> bool {
        &&& self.stats.wf()
        &&& self.currency.wf()
        &&& self.dungeon.wf()
        &&& self.narrative.wf()
        &&& inventory_wf(self.consumable_inventory@)
        &&& inventory_wf(self.equipment_inventory@)
    }

    /// What outcome application itself needs: component bounds and unique
    /// collections, but no bound on the check tallies (they are not read).
    pub open spec fn apply_ready(&self) -> bool {
        &&& self.stats.wf()
        &&& self.currency.wf()
        &&& self.dungeon.wf()
        &&& self.narrative.collections_unique()
        &&& inventory_wf(self.consumable_inventory@)
        &&& inventory_wf(self.equipment_inventory@)
    }
}

/// Zero floor used by penalties: balances and health never go negative.
pub open spec fn clamp0(x: int) -> int {
    if x > 0 {
        x
    } else {
        0
    }
}

/// Story flags after merging a list of writes, in order, each overwriting.
pub open spec fn spec_merge_flags(
    m: Map<Seq<char>, Seq<char>>,
    entries: Seq<(Seq<char>, Seq<char>)>,
) -> Map<Seq<char>, Seq<char>>
    decreases entries.len(),
{
    if entries.len() == 0 {
        m
    } else {
        spec_merge_flags(m, entries.drop_last()).insert(entries.last().0, entries.last().1)
    }
}

/// The traversal bookkeeping every application performs. An outcome that
/// leads somewhere moves the player there, records the visit, merges its
/// flag writes and completes the ledger pair; one that leads nowhere only
/// completes the ledger pair.
pub open spec fn spec_apply_progress(n: NarrativeView, o: OutcomeView) -> NarrativeView {
    let key = (o.choice_id, o.outcome_type);
    match o.next_location_id {
        Some(loc) => NarrativeView {
            current_location_id: Some(loc),
            visited_locations: n.visited_locations.insert(loc),
            story_flags: spec_merge_flags(n.story_flags, o.sets_flags),
            completed_choices: n.completed_choices.insert(key),
            ..n
        },
        None => NarrativeView { completed_choices: n.completed_choices.insert(key), ..n },
    }
}

/// Gold is credited to both ledgers at once: the dungeon balance on the
/// character sheet, and the lifetime-tracked currency ledger.
pub open spec fn spec_apply_gold_reward(p: PlayerView, g: int) -> PlayerView {
    PlayerView {
        stats: StatsView { current_gold: p.stats.current_gold + g, ..p.stats },
        currency: CurrencyView {
            gold: p.currency.gold + g,
            lifetime_gold_earned: p.currency.lifetime_gold_earned + g,
            ..p.currency
        },
        ..p
    }
}

/// Experience goes to the dungeon tally and runs the escalating level
/// curve; each level gained awards one free stat point.
pub open spec fn spec_apply_xp_reward(p: PlayerView, xp: int) -> PlayerView {
    let total = p.dungeon.total_xp_earned + xp;
    let prog = spec_level_progression(p.stats.level, total);
    PlayerView {
        dungeon: DungeonProgressView { total_xp_earned: total, ..p.dungeon },
        stats: if prog.levels_gained > 0 {
            StatsView {
                level: prog.level,
                stat_points_available: p.stats.stat_points_available + prog.levels_gained,
                ..p.stats
            }
        } else {
            p.stats
        },
        ..p
    }
}

/// A heal reward: to full, or by an amount clamped at maximum health.
pub open spec fn spec_apply_heal_reward(p: PlayerView, h: HealReward) -> PlayerView {
    match h {
        HealReward::Full => PlayerView {
            stats: StatsView { current_health: p.stats.max_health, ..p.stats },
            ..p
        },
        HealReward::Amount(a) => PlayerView {
            stats: StatsView {
                current_health: if p.stats.current_health + a < p.stats.max_health {
                    p.stats.current_health + a
                } else {
                    p.stats.max_health
                },
                ..p.stats
            },
            ..p
        },
    }
}

/// One more of the item in an inventory map.
pub open spec fn spec_bump_stack(m: Map<Seq<char>, int>, id: Seq<char>) -> Map<Seq<char>, int> {
    m.insert(
        id,
        if m.contains_key(id) {
            m[id] + 1
        } else {
            1
        },
    )
}

/// One item reward: stacked into the consumable inventory when the
/// consumable catalog knows the id, into the equipment inventory when only
/// the equipment catalog does, and silently ignored when neither does.
pub open spec fn spec_grant_item(p: PlayerView, cat: CatalogView, id: Seq<char>) -> PlayerView {
    if cat.consumable_ids.contains(id) {
        PlayerView { consumable_inventory: spec_bump_stack(p.consumable_inventory, id), ..p }
    } else if cat.equipment_ids.contains(id) {
        PlayerView { equipment_inventory: spec_bump_stack(p.equipment_inventory, id), ..p }
    } else {
        p
    }
}

/// All item rewards, granted in order.
pub open spec fn spec_grant_items(p: PlayerView, cat: CatalogView, items: Seq<Seq<char>>) -> PlayerView
    decreases items.len(),
{
    if items.len() == 0 {
        p
    } else {
        spec_grant_item(spec_grant_items(p, cat, items.drop_last()), cat, items.last())
    }
}

/// The full reward block, in its fixed order: gold, experience, heal, items.
pub open spec fn spec_apply_rewards(
    p: PlayerView,
    cat: CatalogView,
    rewards: Option<RewardsView>,
) -> PlayerView {
    match rewards {
        None => p,
        Some(r) => {
            let p1 = match r.gold {
                Some(g) => spec_apply_gold_reward(p, g),
                None => p,
            };
            let p2 = match r.xp {
                Some(x) => spec_apply_xp_reward(p1, x),
                None => p1,
            };
            let p3 = match r.heal {
                Some(h) => spec_apply_heal_reward(p2, h),
                None => p2,
            };
            spec_grant_items(p3, cat, r.items)
        },
    }
}

/// The penalty block: damage floors health at 0; a gold penalty drains both
/// ledgers, floored at 0, and never touches the lifetime-earned counter.
pub open spec fn spec_apply_penalties(p: PlayerView, penalties: Option<PenaltiesView>) -> PlayerView {
    match penalties {
        None => p,
        Some(pen) => {
            let p1 = match pen.damage {
                Some(d) => PlayerView {
                    stats: StatsView {
                        current_health: clamp0(p.stats.current_health - d),
                        ..p.stats
                    },
                    ..p
                },
                None => p,
            };
            match pen.gold {
                Some(g) => PlayerView {
                    stats: StatsView { current_gold: clamp0(p1.stats.current_gold - g), ..p1.stats },
                    currency: CurrencyView { gold: clamp0(p1.currency.gold - g), ..p1.currency },
                    ..p1
                },
                None => p1,
            }
        },
    }
}

/// Has this outcome's ledger pair already been completed?
pub open spec fn spec_already_completed(p: PlayerView, o: OutcomeView) -> bool {
    p.narrative.completed_choices.contains((o.choice_id, o.outcome_type))
}

/// One full outcome application: bookkeeping always, rewards only on a
/// first-time ledger pair, penalties unconditionally.
pub open spec fn spec_apply_outcome(p: PlayerView, cat: CatalogView, o: OutcomeView) -> PlayerView {
    let already = spec_already_completed(p, o);
    let p1 = PlayerView { narrative: spec_apply_progress(p.narrative, o), ..p };
    let p2 = if already {
        p1
    } else {
        spec_apply_rewards(p1, cat, o.rewards)
    };
    spec_apply_penalties(p2, o.penalties)
}

/// Does a catalog id list contain this id?
#[verifier::loop_isolation(false)]
fn contains_id(ids: &Vec<String>, id: &String) -> (r: bool)
    ensures
        r == elem_set(string_views(ids@)).contains(id@),
{
    let n: usize = ids.len();
    let mut i: usize = 0;
    while i < n
        invariant
            i <= n,
            forall|j: int| 0 <= j < i ==> (#[trigger] ids@[j])@ != id@,
        decreases n - i,
    {
        if crate::text::str_eq_chars(ids[i].as_str(), id.as_str()) {
            proof {
                lemma_elem_set_contains(string_views(ids@), id@);
                assert(string_views(ids@)[i as int] == id@);
            }
            return true;
        }
        i = i + 1;
    }
    proof {
        lemma_elem_set_contains(string_views(ids@), id@);
    }
    false
}

/// Stack one more of an item: bump the existing stack or open a new one
/// with quantity 1. On the map abstraction this is [`spec_bump_stack`].
#[verifier::loop_isolation(false)]
fn grant_stack(inv: &mut Vec<ItemStack>, id: &String, Ghost(room): Ghost<int>)
    requires
        forall|i: int, j: int|
            0 <= i < j < old(inv)@.len() ==> (#[trigger] old(inv)@[i])@.0 != (
            #[trigger] old(inv)@[j])@.0,
        forall|i: int| 0 <= i < old(inv)@.len() ==> 0 <= (#[trigger] old(inv)@[i])@.1 <= room,
        0 <= room <= 2 * MAX_RESOURCE,
    ensures
        assoc_map(stack_entries(final(inv)@)) == spec_bump_stack(
            assoc_map(stack_entries(old(inv)@)),
            id@,
        ),
        forall|i: int, j: int|
            0 <= i < j < final(inv)@.len() ==> (#[trigger] final(inv)@[i])@.0 != (
            #[trigger] final(inv)@[j])@.0,
        forall|i: int| 0 <= i < final(inv)@.len() ==> 0 <= (#[trigger] final(inv)@[i])@.1 <= room + 1,
{
    let ghost orig = inv@;
    let n: usize = inv.len();
    let mut i: usize = 0;
    while i < n
        invariant
            n == inv@.len(),
            inv@ == orig,
            i <= n,
            forall|j: int| 0 <= j < i ==> (#[trigger] orig[j])@.0 != id@,
        decreases n - i,
    {
        if crate::text::str_eq_chars(inv[i].item_id.as_str(), id.as_str()) {
            proof {
                assert(stack_entries(orig)[i as int].0 == id@);
                assert forall|j: int| i < j < stack_entries(orig).len() implies (
                #[trigger] stack_entries(orig)[j]).0 != id@ by {
                    assert(orig[i as int]@.0 != orig[j]@.0);
                }
                crate::assoc::lemma_assoc_map_lookup(stack_entries(orig), id@, i as int);
            }
            let q: i64 = inv[i].quantity;
            inv.set(i, ItemStack { item_id: id.clone(), quantity: q + 1 });
            proof {
                assert(stack_entries(inv@) =~= stack_entries(orig).update(
                    i as int,
                    (id@, q + 1 as int),
                ));
                crate::assoc::lemma_assoc_map_update(stack_entries(orig), id@, i as int, q + 1);
                assert forall|a: int, b: int| 0 <= a < b < inv@.len() implies (
                #[trigger] inv@[a])@.0 != (#[trigger] inv@[b])@.0 by {
                    assert(orig[a]@.0 != orig[b]@.0);
                    assert(inv@[a]@.0 == orig[a]@.0);
                    assert(inv@[b]@.0 == orig[b]@.0);
                }
            }
            return ;
        }
        i = i + 1;
    }
    proof {
        crate::assoc::lemma_assoc_map_absent(stack_entries(orig), id@);
    }
    inv.push(ItemStack { item_id: id.clone(), quantity: 1 });
    proof {
        assert(stack_entries(inv@) =~= stack_entries(orig).push((id@, 1)));
        crate::assoc::lemma_assoc_map_push(stack_entries(orig), id@, 1);
        assert forall|a: int, b: int| 0 <= a < b < inv@.len() implies (#[trigger] inv@[a])@.0 != (
        #[trigger] inv@[b])@.0 by {
            if b < orig.len() {
                assert(orig[a]@.0 != orig[b]@.0);
            } else {
                assert(orig[a]@.0 != id@);
            }
        }
    }
}

/// Apply one narrative outcome to the player. Follows
/// [`spec_apply_outcome`] exactly: traversal bookkeeping on every call,
/// the reward block only when the `(choice, outcome type)` pair is new,
/// the penalty block always.
#[verifier::loop_isolation(false)]
#[verifier::rlimit(100)]
pub fn apply_narrative_outcome(
    state: PlayerState,
    catalog: &ItemCatalog,
    outcome: &NarrativeOutcome,
) -> (r: PlayerState)
    requires
        state.apply_ready(),
        outcome.wf(),
    ensures
        r@ == spec_apply_outcome(state@, catalog@, outcome@),
        r.narrative.collections_unique(),
        r.narrative.total_skill_checks == state.narrative.total_skill_checks,
        r.narrative.successful_skill_checks == state.narrative.successful_skill_checks,
        inventory_wf_loose(r.consumable_inventory@),
        inventory_wf_loose(r.equipment_inventory@),
{
    let ghost p0 = state@;
    let mut s = state;
    let already = is_outcome_completed(
        &s.narrative.completed_choices,
        &outcome.choice_id,
        outcome.outcome_type,
    );

    // Traversal bookkeeping.
    match outcome.next_location_id {
        Some(ref loc) => {
            s.narrative.current_location_id = Some(loc.clone());
            add_visited_location(&mut s.narrative.visited_locations, loc);
            let ghost m0 = assoc_map(flag_entries(s.narrative.story_flags@));
            let ghost writes = outcome@.sets_flags;
            let ghost before_flags = s;
            let wn: usize = outcome.sets_flags.len();
            let mut wi: usize = 0;
            while wi < wn
                invariant
                    wi <= wn,
                    wn == outcome.sets_flags@.len(),
                    s.stats == before_flags.stats,
                    s.currency == before_flags.currency,
                    s.dungeon == before_flags.dungeon,
                    s.consumable_inventory@ == before_flags.consumable_inventory@,
                    s.equipment_inventory@ == before_flags.equipment_inventory@,
                    s.narrative.user_id == before_flags.narrative.user_id,
                    s.narrative.floor_number == before_flags.narrative.floor_number,
                    s.narrative.current_location_id == before_flags.narrative.current_location_id,
                    s.narrative.visited_locations@ == before_flags.narrative.visited_locations@,
                    s.narrative.completed_choices@ == before_flags.narrative.completed_choices@,
                    s.narrative.last_roll == before_flags.narrative.last_roll,
                    s.narrative.last_skill_type == before_flags.narrative.last_skill_type,
                    s.narrative.last_skill_dc == before_flags.narrative.last_skill_dc,
                    s.narrative.last_modifier == before_flags.narrative.last_modifier,
                    s.narrative.last_challenge_success == before_flags.narrative.last_challenge_success,
                    s.narrative.total_skill_checks == before_flags.narrative.total_skill_checks,
                    s.narrative.successful_skill_checks == before_flags.narrative.successful_skill_checks,
                    forall|i: int, j: int|
                        0 <= i < j < s.narrative.story_flags@.len() ==> (
                        #[trigger] s.narrative.story_flags@[i])@.0 != (
                        #[trigger] s.narrative.story_flags@[j])@.0,
                    assoc_map(flag_entries(s.narrative.story_flags@)) == spec_merge_flags(
                        m0,
                        writes.take(wi as int),
                    ),
                decreases wn - wi,
            {
                let ghost before = assoc_map(flag_entries(s.narrative.story_flags@));
                set_story_flag(
                    &mut s.narrative.story_flags,
                    &outcome.sets_flags[wi].key,
                    &outcome.sets_flags[wi].value,
                );
                proof {
                    assert(writes[wi as int] == outcome.sets_flags@[wi as int]@);
                    assert(writes.take(wi as int + 1).drop_last() =~= writes.take(wi as int));
                    assert(writes.take(wi as int + 1).last() == writes[wi as int]);
                }
                wi = wi + 1;
            }
            proof {
                assert(writes.take(wn as int) =~= writes);
            }
            mark_outcome_completed(
                &mut s.narrative.completed_choices,
                &outcome.choice_id,
                outcome.outcome_type,
            );
        },
        None => {
            mark_outcome_completed(
                &mut s.narrative.completed_choices,
                &outcome.choice_id,
                outcome.outcome_type,
            );
        },
    }
    proof {
        assert(s@.narrative == spec_apply_progress(p0.narrative, outcome@));
        assert(s@ == (PlayerView { narrative: spec_apply_progress(p0.narrative, outcome@), ..p0 }));
    }
    let ghost p1 = spec_apply_outcome_progress_stage(p0, outcome@);

    // Rewards, only on a first-time completion.
    if !already {
        if let Some(ref rewards) = outcome.rewards {
            let ghost rv = match outcome@.rewards {
                Some(x) => x,
                None => arbitrary(),
            };
            if let Some(g) = rewards.gold {
                s.stats.current_gold = s.stats.current_gold + g;
                s.currency.gold = s.currency.gold + g;
                s.currency.lifetime_gold_earned = s.currency.lifetime_gold_earned + g;
                proof {
                    assert(s@ == spec_apply_gold_reward(p1, g as int));
                }
            }
            let ghost p2 = match rv.gold {
                Some(gv) => spec_apply_gold_reward(p1, gv),
                None => p1,
            };
            proof {
                assert(s@ == p2);
            }
            if let Some(x) = rewards.xp {
                let total: i64 = s.dungeon.total_xp_earned + x;
                s.dungeon.total_xp_earned = total;
                let progression = apply_level_progression(s.stats.level, total);
                if progression.2 > 0 {
                    s.stats.level = progression.0;
                    s.stats.stat_points_available = s.stats.stat_points_available + progression.2;
                }
                proof {
                    assert(s@ == spec_apply_xp_reward(p2, x as int));
                }
            }
            let ghost p3 = match rv.xp {
                Some(xv) => spec_apply_xp_reward(p2, xv),
                None => p2,
            };
            proof {
                assert(s@ == p3);
            }
            if let Some(h) = rewards.heal {
                match h {
                    HealReward::Full => {
                        s.stats.current_health = s.stats.max_health;
                    },
                    HealReward::Amount(a) => {
                        let raised: i64 = s.stats.current_health + a;
                        s.stats.current_health = if raised < s.stats.max_health {
                            raised
                        } else {
                            s.stats.max_health
                        };
                    },
                }
                proof {
                    assert(s@ == spec_apply_heal_reward(p3, h));
                }
            }
            let ghost p4 = match rv.heal {
                Some(hv) => spec_apply_heal_reward(p3, hv),
                None => p3,
            };
            proof {
                assert(s@ == p4);
            }
            let ghost before_items = s;
            let ghost item_views = rv.items;
            let item_count: usize = rewards.items.len();
            let mut ii: usize = 0;
            while ii < item_count
                invariant
                    ii <= item_count,
                    item_count == rewards.items@.len(),
                    item_views == rewards.items.deep_view(),
                    s@ == spec_grant_items(p4, catalog@, item_views.take(ii as int)),
                    s.stats == before_items.stats,
                    s.currency == before_items.currency,
                    s.dungeon == before_items.dungeon,
                    s.narrative == before_items.narrative,
                    forall|i: int, j: int|
                        0 <= i < j < s.consumable_inventory@.len() ==> (
                        #[trigger] s.consumable_inventory@[i])@.0 != (
                        #[trigger] s.consumable_inventory@[j])@.0,
                    forall|i: int|
                        0 <= i < s.consumable_inventory@.len() ==> 0 <= (
                        #[trigger] s.consumable_inventory@[i])@.1 <= MAX_RESOURCE + ii,
                    forall|i: int, j: int|
                        0 <= i < j < s.equipment_inventory@.len() ==> (
                        #[trigger] s.equipment_inventory@[i])@.0 != (
                        #[trigger] s.equipment_inventory@[j])@.0,
                    forall|i: int|
                        0 <= i < s.equipment_inventory@.len() ==> 0 <= (
                        #[trigger] s.equipment_inventory@[i])@.1 <= MAX_RESOURCE + ii,
                decreases item_count - ii,
            {
                let id = &rewards.items[ii];
                proof {
                    assert(item_views[ii as int] == rewards.items@[ii as int]@);
                    assert(item_views.take(ii as int + 1).drop_last() =~= item_views.take(
                        ii as int,
                    ));
                    assert(item_views.take(ii as int + 1).last() == item_views[ii as int]);
                }
                if contains_id(&catalog.consumable_ids, id) {
                    grant_stack(
                        &mut s.consumable_inventory,
                        id,
                        Ghost(MAX_RESOURCE + ii as int),
                    );
                } else if contains_id(&catalog.equipment_ids, id) {
                    grant_stack(&mut s.equipment_inventory, id, Ghost(MAX_RESOURCE + ii as int));
                }
                ii = ii + 1;
            }
            proof {
                assert(item_views.take(item_count as int) =~= item_views);
                assert(s@ == spec_apply_rewards(p1, catalog@, outcome@.rewards));
            }
        }
    }
    proof {
        assert(s@ == (if spec_already_completed(p0, outcome@) {
            p1
        } else {
            spec_apply_rewards(p1, catalog@, outcome@.rewards)
        }));
    }
    let ghost p5 = if spec_already_completed(p0, outcome@) {
        p1
    } else {
        spec_apply_rewards(p1, catalog@, outcome@.rewards)
    };

    proof {
        assert(0 <= s@.stats.current_health <= MAX_RESOURCE + MAX_AMOUNT);
        assert(0 <= s@.stats.current_gold <= MAX_RESOURCE + MAX_AMOUNT);
        assert(0 <= s@.currency.gold <= MAX_RESOURCE + MAX_AMOUNT);
    }
    // Penalties, unconditionally.
    if let Some(penalties) = outcome.penalties {
        if let Some(d) = penalties.damage {
            let hurt: i64 = s.stats.current_health - d;
            s.stats.current_health = if hurt > 0 {
                hurt
            } else {
                0
            };
        }
        if let Some(g) = penalties.gold {
            let dungeon_gold: i64 = s.stats.current_gold - g;
            s.stats.current_gold = if dungeon_gold > 0 {
                dungeon_gold
            } else {
                0
            };
            let ledger_gold: i64 = s.currency.gold - g;
            s.currency.gold = if ledger_gold > 0 {
                ledger_gold
            } else {
                0
            };
        }
    }
    proof {
        assert(s@ == spec_apply_penalties(p5, outcome@.penalties));
    }
    s
}

/// The state after only the bookkeeping stage of an application.
pub open spec fn spec_apply_outcome_progress_stage(p: PlayerView, o: OutcomeView) -> PlayerView {
    PlayerView { narrative: spec_apply_progress(p.narrative, o), ..p }
}

/// Inventory well-formedness with room for freshly granted stacks.
pub open spec fn inventory_wf_loose(s: Seq<ItemStack>) -> bool {
    &&& forall|i: int, j: int|
        0 <= i < j < s.len() ==> (#[trigger] s[i])@.0 != (#[trigger] s[j])@.0
    &&& forall|i: int| 0 <= i < s.len() ==> 0 <= (#[trigger] s[i])@.1
}


/// Law: applying an outcome leaves its `(choice, outcome type)` pair in
/// the completed ledger, whatever else it does.
pub proof fn lemma_completion_recorded(p: PlayerView, cat: CatalogView, o: OutcomeView)
    ensures
        spec_apply_outcome(p, cat, o).narrative.completed_choices.contains(
            (o.choice_id, o.outcome_type),
        ),
{
    let p1 = spec_apply_outcome_progress_stage(p, o);
    let p2 = if spec_already_completed(p, o) {
        p1
    } else {
        spec_apply_rewards(p1, cat, o.rewards)
    };
    lemma_rewards_touch_no_ledger(p1, cat, o.rewards);
    assert(p2.narrative == p1.narrative);
}

/// Granting items changes the inventories alone.
proof fn lemma_grant_items_frame(p: PlayerView, cat: CatalogView, items: Seq<Seq<char>>)
    ensures
        spec_grant_items(p, cat, items).stats == p.stats,
        spec_grant_items(p, cat, items).currency == p.currency,
        spec_grant_items(p, cat, items).dungeon == p.dungeon,
        spec_grant_items(p, cat, items).narrative == p.narrative,
    decreases items.len(),
{
    if items.len() > 0 {
        lemma_grant_items_frame(p, cat, items.drop_last());
    }
}

/// The reward block never touches the traversal state, in particular not
/// the completed ledger.
proof fn lemma_rewards_touch_no_ledger(p: PlayerView, cat: CatalogView, rewards: Option<RewardsView>)
    ensures
        spec_apply_rewards(p, cat, rewards).narrative == p.narrative,
{
    match rewards {
        None => {},
        Some(r) => {
            let p1 = match r.gold {
                Some(g) => spec_apply_gold_reward(p, g),
                None => p,
            };
            let p2 = match r.xp {
                Some(x) => spec_apply_xp_reward(p1, x),
                None => p1,
            };
            let p3 = match r.heal {
                Some(h) => spec_apply_heal_reward(p2, h),
                None => p2,
            };
            lemma_grant_items_frame(p3, cat, r.items);
        },
    }
}

/// Law: rewards are granted at most once. However an outcome is applied a
/// second time, that second application is exactly the bookkeeping stage
/// followed by the penalty block — the reward block is skipped, because
/// the first application completed the ledger pair.
pub proof fn lemma_rewards_applied_once(p: PlayerView, cat: CatalogView, o: OutcomeView)
    ensures
        ({
            let once = spec_apply_outcome(p, cat, o);
            let twice = spec_apply_outcome(once, cat, o);
            twice == spec_apply_penalties(spec_apply_outcome_progress_stage(once, o), o.penalties)
        }),
{
    lemma_completion_recorded(p, cat, o);
}

/// Law: replaying an outcome with no penalty block moves no resources at
/// all — the character sheet, both ledgers, the dungeon tallies and both
/// inventories come out of the second application unchanged.
pub proof fn lemma_replay_grants_nothing(p: PlayerView, cat: CatalogView, o: OutcomeView)
    requires
        o.penalties is None,
    ensures
        ({
            let once = spec_apply_outcome(p, cat, o);
            let twice = spec_apply_outcome(once, cat, o);
            &&& twice.stats == once.stats
            &&& twice.currency == once.currency
            &&& twice.dungeon == once.dungeon
            &&& twice.consumable_inventory == once.consumable_inventory
            &&& twice.equipment_inventory == once.equipment_inventory
        }),
{
    lemma_rewards_applied_once(p, cat, o);
}

/// Law: a damage penalty is taken on every application. The second
/// application of an outcome carrying damage `d` lowers health by `d`
/// again (floored at 0), even though its rewards are skipped; and when the
/// outcome has no reward block, the first application does the same.
pub proof fn lemma_damage_penalty_every_time(p: PlayerView, cat: CatalogView, o: OutcomeView, d: int)
    requires
        o.penalties matches Some(pen) && pen.damage == Some(d),
    ensures
        ({
            let once = spec_apply_outcome(p, cat, o);
            let twice = spec_apply_outcome(once, cat, o);
            twice.stats.current_health == clamp0(once.stats.current_health - d)
        }),
        o.rewards is None ==> spec_apply_outcome(p, cat, o).stats.current_health == clamp0(
            p.stats.current_health - d,
        ),
{
    lemma_rewards_applied_once(p, cat, o);
}

/// The bookkeeping a resolved skill check writes to the traversal state:
/// the last-roll fields, and the check tallies.
pub open spec fn spec_record_check(
    n: NarrativeView,
    dice_roll: int,
    skill_type: Option<Seq<char>>,
    dc: int,
    applied_modifier: int,
    challenge_success: bool,
    check_passed: bool,
) -> NarrativeView {
    NarrativeView {
        last_roll: Some(dice_roll),
        last_skill_type: skill_type,
        last_skill_dc: Some(dc),
        last_modifier: Some(applied_modifier),
        last_challenge_success: Some(challenge_success),
        total_skill_checks: n.total_skill_checks + 1,
        successful_skill_checks: n.successful_skill_checks + (if check_passed {
            1int
        } else {
            0int
        }),
        ..n
    }
}

/// A choice's difficulty class: its catalog value, or 10 where unset.
pub open spec fn spec_choice_dc(c: NarrativeChoice) -> int {
    match c.skill_dc {
        Some(d) => d as int,
        None => 10,
    }
}

/// The modifier actually applied: the stat bonus is gated on the embedded
/// coding challenge having been solved.
pub open spec fn spec_applied_modifier(stat_modifier: int, challenge_success: bool) -> int {
    if challenge_success {
        stat_modifier
    } else {
        0
    }
}

/// Did the modified roll meet the choice's DC?
pub open spec fn spec_check_passed(
    c: NarrativeChoice,
    dice_roll: int,
    stat_modifier: int,
    challenge_success: bool,
) -> bool {
    dice_roll + spec_applied_modifier(stat_modifier, challenge_success) >= spec_choice_dc(c)
}

/// The outcome type a check resolves to.
pub open spec fn spec_check_outcome_type(
    c: NarrativeChoice,
    dice_roll: int,
    stat_modifier: int,
    challenge_success: bool,
) -> OutcomeType {
    spec_outcome_type(dice_roll, spec_check_passed(c, dice_roll, stat_modifier, challenge_success))
}

/// The coarse row the resolver falls back to when the exact type is absent.
pub open spec fn spec_check_fallback_type(
    c: NarrativeChoice,
    dice_roll: int,
    stat_modifier: int,
    challenge_success: bool,
) -> OutcomeType {
    if spec_check_passed(c, dice_roll, stat_modifier, challenge_success) {
        OutcomeType::Success
    } else {
        OutcomeType::Failure
    }
}

/// Neither the resolved type nor its fallback has an outcome row.
pub open spec fn spec_no_outcome_row(
    outcomes: Seq<NarrativeOutcome>,
    primary: OutcomeType,
    fallback: OutcomeType,
) -> bool {
    forall|j: int|
        0 <= j < outcomes.len() ==> (#[trigger] outcomes[j]).outcome_type != primary
            && outcomes[j].outcome_type != fallback
}

/// What a successful resolution returns: the computed check fields, and a
/// player state that carries the last-roll bookkeeping and the selected
/// outcome's application.
pub open spec fn spec_resolved_check(
    c: NarrativeChoice,
    outcomes: Seq<NarrativeOutcome>,
    state0: PlayerView,
    cat: CatalogView,
    dice_roll: int,
    stat_modifier: int,
    challenge_success: bool,
    res: SkillCheckResult,
    ns: PlayerView,
) -> bool {
    let dc = spec_choice_dc(c);
    let applied = spec_applied_modifier(stat_modifier, challenge_success);
    let passed = spec_check_passed(c, dice_roll, stat_modifier, challenge_success);
    let primary = spec_check_outcome_type(c, dice_roll, stat_modifier, challenge_success);
    let fallback = spec_check_fallback_type(c, dice_roll, stat_modifier, challenge_success);
    let booked = PlayerView {
        narrative: spec_record_check(
            state0.narrative,
            dice_roll,
            match c.skill_type {
                Some(st) => Some(st@),
                None => None,
            },
            dc,
            applied,
            challenge_success,
            passed,
        ),
        ..state0
    };
    &&& res.dice_roll == dice_roll
    &&& res.stat_modifier == stat_modifier
    &&& res.challenge_success == challenge_success
    &&& res.applied_modifier == applied
    &&& res.total_roll == dice_roll + applied
    &&& res.dc == dc
    &&& res.check_passed == passed
    &&& res.outcome_type == primary
    &&& exists|i: int|
        {
            &&& #[trigger] spec_selected_outcome(outcomes, primary, fallback, i)
            &&& res.outcome == outcomes[i]
            &&& ns == spec_apply_outcome(booked, cat, outcomes[i]@)
        }
}

/// The full result of one resolved skill check.
#[derive(Debug)]
pub struct SkillCheckResult {
    pub dice_roll: i64,
    pub stat_modifier: i64,
    pub challenge_success: bool,
    /// 0 unless the embedded coding challenge was solved.
    pub applied_modifier: i64,
    pub total_roll: i64,
    pub dc: i64,
    pub check_passed: bool,
    pub outcome_type: OutcomeType,
    pub outcome: NarrativeOutcome,
}

/// Resolve one narrative skill check and apply the selected outcome.
///
/// The stat modifier counts only when the embedded coding challenge was
/// solved; the total is measured against the choice's DC (10 where unset);
/// natural rolls override per [`spec_outcome_type`]. The outcome row is
/// the first of the resulting type, falling back to the plain
/// success / failure row; missing both is a content-authoring error,
/// [`ErrorKind::NotFound`]. On success the traversal state carries the
/// last-roll bookkeeping and the outcome has been applied through
/// [`spec_apply_outcome`].
#[verifier::rlimit(100)]
pub fn resolve_skill_check(
    choice: &NarrativeChoice,
    outcomes: Vec<NarrativeOutcome>,
    state: PlayerState,
    catalog: &ItemCatalog,
    dice_roll: i64,
    stat_modifier: i64,
    challenge_success: bool,
) -> (r: Result<(SkillCheckResult, PlayerState), GameError>)
    requires
        choice.wf(),
        state.wf(),
        forall|j: int| 0 <= j < outcomes@.len() ==> (#[trigger] outcomes@[j]).wf(),
        1 <= dice_roll <= 20,
        -MAX_AMOUNT <= stat_modifier <= MAX_AMOUNT,
    ensures
        r is Err <==> spec_no_outcome_row(
            outcomes@,
            spec_check_outcome_type(*choice, dice_roll as int, stat_modifier as int,
                challenge_success),
            spec_check_fallback_type(*choice, dice_roll as int, stat_modifier as int,
                challenge_success),
        ),
        r matches Err(e) ==> e.kind == ErrorKind::NotFound,
        r matches Ok(t) ==> spec_resolved_check(
            *choice,
            outcomes@,
            state@,
            catalog@,
            dice_roll as int,
            stat_modifier as int,
            challenge_success,
            t.0,
            t.1@,
        ),
{
    let dc: i64 = match choice.skill_dc {
        Some(d) => d,
        None => 10,
    };
    let applied_modifier: i64 = if challenge_success {
        stat_modifier
    } else {
        0
    };
    let total_roll: i64 = dice_roll + applied_modifier;
    let check_passed = total_roll >= dc;
    let outcome_type = determine_outcome_type(dice_roll, check_passed);
    let fallback = if check_passed {
        OutcomeType::Success
    } else {
        OutcomeType::Failure
    };
    let idx: usize = match select_outcome_index(&outcomes, outcome_type, fallback) {
        Ok(i) => i,
        Err(e) => {
            return Err(e);
        },
    };
    let mut remaining = outcomes;
    let outcome = remaining.remove(idx);

    let mut st = state;
    st.narrative.last_roll = Some(dice_roll);
    st.narrative.last_skill_type = match choice.skill_type {
        Some(ref t) => Some(t.clone()),
        None => None,
    };
    st.narrative.last_skill_dc = Some(dc);
    st.narrative.last_modifier = Some(applied_modifier);
    st.narrative.last_challenge_success = Some(challenge_success);
    st.narrative.total_skill_checks = st.narrative.total_skill_checks + 1;
    if check_passed {
        st.narrative.successful_skill_checks = st.narrative.successful_skill_checks + 1;
    }

    let ghost booked = PlayerView {
        narrative: spec_record_check(
            state@.narrative,
            dice_roll as int,
            match choice.skill_type {
                Some(ref t) => Some(t@),
                None => None,
            },
            dc as int,
            applied_modifier as int,
            challenge_success,
            check_passed,
        ),
        ..state@
    };
    proof {
        assert(st@.narrative == booked.narrative);
        assert(st@ == booked);
    }
    let new_state = apply_narrative_outcome(st, catalog, &outcome);
    let result = SkillCheckResult {
        dice_roll,
        stat_modifier,
        challenge_success,
        applied_modifier,
        total_roll,
        dc,
        check_passed,
        outcome_type,
        outcome,
    };
    proof {
        let primary_s = spec_check_outcome_type(*choice, dice_roll as int, stat_modifier as int,
            challenge_success);
        let fallback_s = spec_check_fallback_type(*choice, dice_roll as int, stat_modifier as int,
            challenge_success);
        assert(outcome_type == primary_s && fallback == fallback_s);
        assert(spec_selected_outcome(outcomes@, primary_s, fallback_s, idx as int));
        assert(result.outcome == outcomes@[idx as int]);
        assert(new_state@ == spec_apply_outcome(booked, catalog@, outcomes@[idx as int]@));
        assert(spec_resolved_check(*choice, outcomes@, state@, catalog@, dice_roll as int,
            stat_modifier as int, challenge_success, result, new_state@));
    }
    Ok((result, new_state))
}

/// Take a choice that needs no dice: fetch its fixed outcome row and apply
/// it through the same path as every other outcome. Fails with
/// [`ErrorKind::NotFound`] exactly when the choice has no such row.
pub fn make_simple_choice(
    outcomes: Vec<NarrativeOutcome>,
    state: PlayerState,
    catalog: &ItemCatalog,
) -> (r: Result<(NarrativeOutcome, PlayerState), GameError>)
    requires
        state.wf(),
        forall|j: int| 0 <= j < outcomes@.len() ==> (#[trigger] outcomes@[j]).wf(),
    ensures
        r is Err <==> (forall|j: int|
            0 <= j < outcomes@.len() ==> (#[trigger] outcomes@[j]).outcome_type
                != OutcomeType::Default),
        r matches Err(e) ==> e.kind == ErrorKind::NotFound,
        r matches Ok(t) ==> exists|i: int|
            {
                &&& #[trigger] spec_selected_outcome(
                    outcomes@,
                    OutcomeType::Default,
                    OutcomeType::Default,
                    i,
                )
                &&& t.0 == outcomes@[i]
                &&& t.1@ == spec_apply_outcome(state@, catalog@, outcomes@[i]@)
            },
{
    get_outcome_by_type(outcomes, OutcomeType::Default, state, catalog)
}

/// Fetch the outcome row of a named type for a choice and apply it. Fails
/// with [`ErrorKind::NotFound`] exactly when no row has that type.
pub fn get_outcome_by_type(
    outcomes: Vec<NarrativeOutcome>,
    outcome_type: OutcomeType,
    state: PlayerState,
    catalog: &ItemCatalog,
) -> (r: Result<(NarrativeOutcome, PlayerState), GameError>)
    requires
        state.wf(),
        forall|j: int| 0 <= j < outcomes@.len() ==> (#[trigger] outcomes@[j]).wf(),
    ensures
        r is Err <==> (forall|j: int|
            0 <= j < outcomes@.len() ==> (#[trigger] outcomes@[j]).outcome_type != outcome_type),
        r matches Err(e) ==> e.kind == ErrorKind::NotFound,
        r matches Ok(t) ==> exists|i: int|
            {
                &&& #[trigger] spec_selected_outcome(outcomes@, outcome_type, outcome_type, i)
                &&& t.0 == outcomes@[i]
                &&& t.1@ == spec_apply_outcome(state@, catalog@, outcomes@[i]@)
            },
{
    let idx: usize = match select_outcome_index(&outcomes, outcome_type, outcome_type) {
        Ok(i) => i,
        Err(e) => {
            return Err(e);
        },
    };
    let mut remaining = outcomes;
    let outcome = remaining.remove(idx);
    let new_state = apply_narrative_outcome(state, catalog, &outcome);
    proof {
        assert(spec_selected_outcome(outcomes@, outcome_type, outcome_type, idx as int));
    }
    Ok((outcome, new_state))
}

} // verus!
