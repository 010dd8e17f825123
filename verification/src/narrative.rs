//! The narrative dungeon: locations, choices, outcomes, per-user traversal
//! state, dice resolution and choice visibility.
//!
//! Traversal state keeps three small collections: visited locations (a set),
//! completed `(choice, outcome type)` pairs (the idempotence ledger, a set),
//! and story flags (a string-to-string map, later writes overwriting
//! earlier ones). Contracts speak of them through the `Set` / `Map`
//! abstractions in [`crate::assoc`]; the stored vectors keep their entries
//! unique as a well-formedness invariant.

use vstd::prelude::*;
use vstd::seq_lib::*;
use crate::assoc::{assoc_map, elem_set, lemma_assoc_map_absent, lemma_assoc_map_lookup,
    lemma_assoc_map_push, lemma_assoc_map_update, lemma_elem_set_contains, lemma_elem_set_push};
use crate::errors::{ErrorKind, GameError};
use crate::stats::{MAX_AMOUNT, MAX_RESOURCE};
pub use crate::text::string_views;

verus! {

/// How a dice check came out, and so which outcome row applies. `Default`
/// is the fixed outcome of a choice that needs no check at all.
#[derive(Clone, Copy, Debug, PartialEq, Eq, Structural)]
pub enum OutcomeType {
    CriticalSuccess,
    Success,
    Failure,
    CriticalFailure,
    Default,
}

/// A named story flag and its value. Flag values are kept as canonical
/// text; two flags match only when their text is identical.
#[derive(Debug)]
pub struct StoryFlag {
    pub key: String,
    pub value: String,
}

impl View for StoryFlag {
    type V = (Seq<char>, Seq<char>);

    open spec fn view(&self) -> (Seq<char>, Seq<char>) {
        (self.key@, self.value@)
    }
}

/// One entry of the idempotence ledger: this outcome of this choice has
/// been applied once already.
#[derive(Debug)]
pub struct CompletedOutcome {
    pub choice_id: String,
    pub outcome_type: OutcomeType,
}

impl View for CompletedOutcome {
    type V = (Seq<char>, OutcomeType);

    open spec fn view(&self) -> (Seq<char>, OutcomeType) {
        (self.choice_id@, self.outcome_type)
    }
}

/// The entry sequence of a story-flag vector.
pub open spec fn flag_entries(s: Seq<StoryFlag>) -> Seq<(Seq<char>, Seq<char>)> {
    s.map_values(|f: StoryFlag| f@)
}

/// The entry sequence of a completed-outcome vector.
pub open spec fn completed_entries(s: Seq<CompletedOutcome>) -> Seq<(Seq<char>, OutcomeType)> {
    s.map_values(|c: CompletedOutcome| c@)
}

/// A place in the narrative graph, from the content catalog.
#[derive(Debug)]
pub struct NarrativeLocation {
    pub id: String,
    pub floor_number: i64,
    pub name: String,
    pub description: String,
    pub location_type: String,
    pub is_repeatable: bool,
    pub icon: String,
}

/// One option offered at a location, from the content catalog. A choice may
/// demand a skill check against `skill_dc`, and may be hidden behind
/// required story flags.
#[derive(Debug)]
pub struct NarrativeChoice {
    pub id: String,
    pub location_id: String,
    pub choice_text: String,
    pub requires_skill_check: bool,
    pub skill_type: Option<String>,
    pub skill_dc: Option<i64>,
    pub challenge_action_type: Option<String>,
    pub display_order: i64,
    pub icon: Option<String>,
    /// `None` means the choice is always offered; a list means every named
    /// flag must currently hold the given value.
    pub requires_flag: Option<Vec<StoryFlag>>,
}

impl NarrativeChoice {
    pub open spec fn wf(&self) -> bool {
        match self.skill_dc {
            Some(d) => -MAX_AMOUNT <= d <= MAX_AMOUNT,
            None => true,
        }
    }
}

/// A heal granted by an outcome: either to full health or by a fixed amount.
#[derive(Clone, Copy, Debug, PartialEq, Eq, Structural)]
pub enum HealReward {
    Full,
    Amount(i64),
}

/// What an outcome grants the first time it is completed.
#[derive(Debug)]
pub struct OutcomeRewards {
    pub gold: Option<i64>,
    pub xp: Option<i64>,
    pub heal: Option<HealReward>,
    pub items: Vec<String>,
}

/// What an outcome costs, applied on every application.
#[derive(Clone, Copy, Debug)]
pub struct OutcomePenalties {
    pub damage: Option<i64>,
    pub gold: Option<i64>,
}

/// One outcome row of a choice, from the content catalog.
#[derive(Debug)]
pub struct NarrativeOutcome {
    pub id: String,
    pub choice_id: String,
    pub outcome_type: OutcomeType,
    pub description: String,
    pub next_location_id: Option<String>,
    pub rewards: Option<OutcomeRewards>,
    pub penalties: Option<OutcomePenalties>,
    pub sets_flags: Vec<StoryFlag>,
    pub triggers_combat: bool,
    pub enemy_id: Option<String>,
    pub enemy_count: i64,
}

/// Mathematical view of the reward block.
pub struct RewardsView {
    pub gold: Option<int>,
    pub xp: Option<int>,
    pub heal: Option<HealReward>,
    pub items: Seq<Seq<char>>,
}

/// Mathematical view of the penalty block.
pub struct PenaltiesView {
    pub damage: Option<int>,
    pub gold: Option<int>,
}

/// Mathematical view of [`NarrativeOutcome`]: the fields application reads.
pub struct OutcomeView {
    pub choice_id: Seq<char>,
    pub outcome_type: OutcomeType,
    pub next_location_id: Option<Seq<char>>,
    pub rewards: Option<RewardsView>,
    pub penalties: Option<PenaltiesView>,
    pub sets_flags: Seq<(Seq<char>, Seq<char>)>,
}

impl View for NarrativeOutcome {
    type V = OutcomeView;

    open spec fn view(&self) -> OutcomeView {
        OutcomeView {
            choice_id: self.choice_id@,
            outcome_type: self.outcome_type,
            next_location_id: match self.next_location_id {
                Some(ref s) => Some(s@),
                None => None,
            },
            rewards: match self.rewards {
                Some(ref r) => Some(
                    RewardsView {
                        gold: match r.gold {
                            Some(g) => Some(g as int),
                            None => None,
                        },
                        xp: match r.xp {
                            Some(x) => Some(x as int),
                            None => None,
                        },
                        heal: r.heal,
                        items: r.items.deep_view(),
                    },
                ),
                None => None,
            },
            penalties: match self.penalties {
                Some(p) => Some(
                    PenaltiesView {
                        damage: match p.damage {
                            Some(d) => Some(d as int),
                            None => None,
                        },
                        gold: match p.gold {
                            Some(g) => Some(g as int),
                            None => None,
                        },
                    },
                ),
                None => None,
            },
            sets_flags: flag_entries(self.sets_flags@),
        }
    }
}

impl NarrativeOutcome {
    /// Catalog sanity: every reward and penalty amount is a bounded,
    /// non-negative quantity.
    pub open spec fn wf(&self) -> bool {
        &&& match self@.rewards {
            Some(r) => {
                &&& match r.gold {
                    Some(g) => 0 <= g <= MAX_AMOUNT,
                    None => true,
                }
                &&& match r.xp {
                    Some(x) => 0 <= x <= MAX_AMOUNT,
                    None => true,
                }
                &&& match r.heal {
                    Some(HealReward::Amount(h)) => 0 <= h <= MAX_AMOUNT,
                    _ => true,
                }
                &&& r.items.len() <= MAX_AMOUNT
            },
            None => true,
        }
        &&& match self@.penalties {
            Some(p) => {
                &&& match p.damage {
                    Some(d) => 0 <= d <= MAX_AMOUNT,
                    None => true,
                }
                &&& match p.gold {
                    Some(g) => 0 <= g <= MAX_AMOUNT,
                    None => true,
                }
            },
            None => true,
        }
    }
}

/// Per-user traversal state.
#[derive(Debug)]
pub struct UserNarrativeProgress {
    pub user_id: i64,
    pub floor_number: i64,
    pub current_location_id: Option<String>,
    pub visited_locations: Vec<String>,
    pub completed_choices: Vec<CompletedOutcome>,
    pub story_flags: Vec<StoryFlag>,
    pub last_roll: Option<i64>,
    pub last_skill_type: Option<String>,
    pub last_skill_dc: Option<i64>,
    pub last_modifier: Option<i64>,
    pub last_challenge_success: Option<bool>,
    pub total_skill_checks: i64,
    pub successful_skill_checks: i64,
}

/// Mathematical view of [`UserNarrativeProgress`]: the collections become
/// their set / map abstractions.
pub struct NarrativeView {
    pub user_id: int,
    pub floor_number: int,
    pub current_location_id: Option<Seq<char>>,
    pub visited_locations: Set<Seq<char>>,
    pub completed_choices: Set<(Seq<char>, OutcomeType)>,
    pub story_flags: Map<Seq<char>, Seq<char>>,
    pub last_roll: Option<int>,
    pub last_skill_type: Option<Seq<char>>,
    pub last_skill_dc: Option<int>,
    pub last_modifier: Option<int>,
    pub last_challenge_success: Option<bool>,
    pub total_skill_checks: int,
    pub successful_skill_checks: int,
}

impl View for UserNarrativeProgress {
    type V = NarrativeView;

    open spec fn view(&self) -> NarrativeView {
        NarrativeView {
            user_id: self.user_id as int,
            floor_number: self.floor_number as int,
            current_location_id: match self.current_location_id {
                Some(ref s) => Some(s@),
                None => None,
            },
            visited_locations: elem_set(string_views(self.visited_locations@)),
            completed_choices: elem_set(completed_entries(self.completed_choices@)),
            story_flags: assoc_map(flag_entries(self.story_flags@)),
            last_roll: match self.last_roll {
                Some(r) => Some(r as int),
                None => None,
            },
            last_skill_type: match self.last_skill_type {
                Some(ref s) => Some(s@),
                None => None,
            },
            last_skill_dc: match self.last_skill_dc {
                Some(d) => Some(d as int),
                None => None,
            },
            last_modifier: match self.last_modifier {
                Some(m) => Some(m as int),
                None => None,
            },
            last_challenge_success: self.last_challenge_success,
            total_skill_checks: self.total_skill_checks as int,
            successful_skill_checks: self.successful_skill_checks as int,
        }
    }
}

impl UserNarrativeProgress {
    /// The stored vectors carry each key / element at most once.
    pub open spec fn collections_unique(&self) -> bool {
        &&& forall|i: int, j: int|
            0 <= i < j < self.story_flags@.len() ==> (#[trigger] self.story_flags@[i])@.0 != (
            #[trigger] self.story_flags@[j])@.0
        &&& forall|i: int, j: int|
            0 <= i < j < self.visited_locations@.len() ==> (#[trigger] self.visited_locations@[i])@
                != (#[trigger] self.visited_locations@[j])@
        &&& forall|i: int, j: int|
            0 <= i < j < self.completed_choices@.len() ==> (#[trigger] self.completed_choices@[i])@
                != (#[trigger] self.completed_choices@[j])@
    }

    /// Unique collections plus bounded check tallies.
    pub open spec fn wf(&self) -> bool {
        &&& 0 <= self@.total_skill_checks <= MAX_RESOURCE
        &&& 0 <= self@.successful_skill_checks <= MAX_RESOURCE
        &&& self.collections_unique()
    }

    /// The state a user starts with: floor 1, nowhere yet, nothing visited,
    /// completed or flagged.
    pub fn initial(user_id: i64) -> (p: UserNarrativeProgress)
        ensures
            p@.user_id == user_id as int,
            p@.floor_number == 1,
            p@.current_location_id is None,
            p@.visited_locations == Set::<Seq<char>>::empty(),
            p@.completed_choices == Set::<(Seq<char>, OutcomeType)>::empty(),
            p@.story_flags == Map::<Seq<char>, Seq<char>>::empty(),
            p@.last_roll is None,
            p@.total_skill_checks == 0,
            p@.successful_skill_checks == 0,
            p.wf(),
    {
        UserNarrativeProgress {
            user_id,
            floor_number: 1,
            current_location_id: None,
            visited_locations: Vec::new(),
            completed_choices: Vec::new(),
            story_flags: Vec::new(),
            last_roll: None,
            last_skill_type: None,
            last_skill_dc: None,
            last_modifier: None,
            last_challenge_success: None,
            total_skill_checks: 0,
            successful_skill_checks: 0,
        }
    }
}

/// Reset a traversal record onto a floor's starting location: the player
/// stands there, the visit set holds just that location, the story flags
/// are cleared. The completed-outcome ledger and the check tallies are
/// per-user history and survive the reset.
pub fn start_narrative_dungeon(
    progress: UserNarrativeProgress,
    floor_number: i64,
    start_location_id: &String,
) -> (r: UserNarrativeProgress)
    ensures
        r@ == (NarrativeView {
            floor_number: floor_number as int,
            current_location_id: Some(start_location_id@),
            visited_locations: Set::<Seq<char>>::empty().insert(start_location_id@),
            story_flags: Map::<Seq<char>, Seq<char>>::empty(),
            ..progress@
        }),
        progress.wf() ==> r.wf(),
{
    let mut r = progress;
    r.floor_number = floor_number;
    r.current_location_id = Some(start_location_id.clone());
    let mut visited: Vec<String> = Vec::new();
    visited.push(start_location_id.clone());
    r.visited_locations = visited;
    r.story_flags = Vec::new();
    proof {
        assert(string_views(r.visited_locations@) =~= Seq::<Seq<char>>::empty().push(
            start_location_id@,
        ));
        lemma_elem_set_push(Seq::<Seq<char>>::empty(), start_location_id@);
        assert(elem_set(string_views(r.visited_locations@)) == elem_set(
            Seq::<Seq<char>>::empty().push(start_location_id@),
        ));
        assert(flag_entries(r.story_flags@) =~= Seq::<(Seq<char>, Seq<char>)>::empty());
        assert(assoc_map(flag_entries(r.story_flags@)) =~= Map::<Seq<char>, Seq<char>>::empty());
    }
    r
}

/// Write one story flag: overwrite the existing entry for the key, or
/// append a new one. On the map abstraction this is exactly `insert`.
#[verifier::loop_isolation(false)]
pub fn set_story_flag(flags: &mut Vec<StoryFlag>, key: &String, value: &String)
    requires
        forall|i: int, j: int|
            0 <= i < j < old(flags)@.len() ==> (#[trigger] old(flags)@[i])@.0 != (
            #[trigger] old(flags)@[j])@.0,
    ensures
        assoc_map(flag_entries(final(flags)@)) == assoc_map(flag_entries(old(flags)@)).insert(
            key@,
            value@,
        ),
        forall|i: int, j: int|
            0 <= i < j < final(flags)@.len() ==> (#[trigger] final(flags)@[i])@.0 != (
            #[trigger] final(flags)@[j])@.0,
{
    let ghost orig = flags@;
    let n: usize = flags.len();
    let mut i: usize = 0;
    while i < n
        invariant
            n == flags@.len(),
            flags@ == orig,
            i <= n,
            forall|j: int| 0 <= j < i ==> (#[trigger] orig[j])@.0 != key@,
        decreases n - i,
    {
        if crate::text::str_eq_chars(flags[i].key.as_str(), key.as_str()) {
            proof {
                assert(flag_entries(orig)[i as int].0 == key@);
                assert forall|j: int| i < j < flag_entries(orig).len() implies (
                #[trigger] flag_entries(orig)[j]).0 != key@ by {
                    assert(orig[i as int]@.0 != orig[j]@.0);
                }
            }
            flags.set(i, StoryFlag { key: key.clone(), value: value.clone() });
            proof {
                assert(flag_entries(flags@) =~= flag_entries(orig).update(
                    i as int,
                    (key@, value@),
                ));
                lemma_assoc_map_update(flag_entries(orig), key@, i as int, value@);
                assert forall|a: int, b: int| 0 <= a < b < flags@.len() implies (
                #[trigger] flags@[a])@.0 != (#[trigger] flags@[b])@.0 by {
                    assert(orig[a]@.0 != orig[b]@.0);
                    assert(flags@[a]@.0 == orig[a]@.0);
                    assert(flags@[b]@.0 == orig[b]@.0);
                }
            }
            return ;
        }
        i = i + 1;
    }
    flags.push(StoryFlag { key: key.clone(), value: value.clone() });
    proof {
        assert(flag_entries(flags@) =~= flag_entries(orig).push((key@, value@)));
        lemma_assoc_map_push(flag_entries(orig), key@, value@);
        assert forall|a: int, b: int| 0 <= a < b < flags@.len() implies (
        #[trigger] flags@[a])@.0 != (#[trigger] flags@[b])@.0 by {
            if b < orig.len() {
                assert(orig[a]@.0 != orig[b]@.0);
            } else {
                assert(orig[a]@.0 != key@);
            }
        }
    }
}

/// Look one story flag up; the result matches the map abstraction.
#[verifier::loop_isolation(false)]
pub fn get_story_flag<'a>(flags: &'a Vec<StoryFlag>, key: &str) -> (r: Option<&'a String>)
    requires
        forall|i: int, j: int|
            0 <= i < j < flags@.len() ==> (#[trigger] flags@[i])@.0 != (#[trigger] flags@[j])@.0,
    ensures
        match r {
            Some(v) => assoc_map(flag_entries(flags@)).contains_key(key@) && assoc_map(
                flag_entries(flags@),
            )[key@] == v@,
            None => !assoc_map(flag_entries(flags@)).contains_key(key@),
        },
{
    let n: usize = flags.len();
    let mut i: usize = 0;
    while i < n
        invariant
            n == flags@.len(),
            i <= n,
            forall|j: int| 0 <= j < i ==> (#[trigger] flags@[j])@.0 != key@,
        decreases n - i,
    {
        if crate::text::str_eq_chars(flags[i].key.as_str(), key) {
            proof {
                assert(flag_entries(flags@)[i as int].0 == key@);
                assert forall|j: int| i < j < flag_entries(flags@).len() implies (
                #[trigger] flag_entries(flags@)[j]).0 != key@ by {
                    assert(flags@[i as int]@.0 != flags@[j]@.0);
                }
                lemma_assoc_map_lookup(flag_entries(flags@), key@, i as int);
            }
            return Some(&flags[i].value);
        }
        i = i + 1;
    }
    proof {
        lemma_assoc_map_absent(flag_entries(flags@), key@);
    }
    None
}

/// Record a visited location: append it unless it is already in the set.
/// On the set abstraction this is exactly `insert`.
#[verifier::loop_isolation(false)]
pub fn add_visited_location(visited: &mut Vec<String>, location_id: &String)
    requires
        forall|i: int, j: int|
            0 <= i < j < old(visited)@.len() ==> (#[trigger] old(visited)@[i])@ != (
            #[trigger] old(visited)@[j])@,
    ensures
        elem_set(string_views(final(visited)@)) == elem_set(string_views(old(visited)@)).insert(
            location_id@,
        ),
        forall|i: int, j: int|
            0 <= i < j < final(visited)@.len() ==> (#[trigger] final(visited)@[i])@ != (
            #[trigger] final(visited)@[j])@,
{
    let ghost orig = visited@;
    let n: usize = visited.len();
    let mut i: usize = 0;
    while i < n
        invariant
            n == visited@.len(),
            visited@ == orig,
            i <= n,
            forall|j: int| 0 <= j < i ==> (#[trigger] orig[j])@ != location_id@,
        decreases n - i,
    {
        if crate::text::str_eq_chars(visited[i].as_str(), location_id.as_str()) {
            proof {
                lemma_elem_set_contains(string_views(orig), location_id@);
                assert(string_views(orig)[i as int] == location_id@);
                assert(elem_set(string_views(orig)).insert(location_id@) =~= elem_set(
                    string_views(orig),
                ));
            }
            return ;
        }
        i = i + 1;
    }
    visited.push(location_id.clone());
    proof {
        assert(string_views(visited@) =~= string_views(orig).push(location_id@));
        lemma_elem_set_push(string_views(orig), location_id@);
        assert forall|a: int, b: int| 0 <= a < b < visited@.len() implies (
        #[trigger] visited@[a])@ != (#[trigger] visited@[b])@ by {
            if b < orig.len() {
                assert(orig[a]@ != orig[b]@);
            } else {
                assert(orig[a]@ != location_id@);
            }
        }
    }
}

/// Is this `(choice, outcome type)` pair already in the ledger?
#[verifier::loop_isolation(false)]
pub fn is_outcome_completed(
    completed: &Vec<CompletedOutcome>,
    choice_id: &String,
    outcome_type: OutcomeType,
) -> (r: bool)
    ensures
        r == elem_set(completed_entries(completed@)).contains((choice_id@, outcome_type)),
{
    let n: usize = completed.len();
    let mut i: usize = 0;
    while i < n
        invariant
            n == completed@.len(),
            i <= n,
            forall|j: int| 0 <= j < i ==> (#[trigger] completed@[j])@ != (choice_id@, outcome_type),
        decreases n - i,
    {
        let same_choice = crate::text::str_eq_chars(
            completed[i].choice_id.as_str(),
            choice_id.as_str(),
        );
        if same_choice && completed[i].outcome_type == outcome_type {
            proof {
                lemma_elem_set_contains(completed_entries(completed@), (choice_id@, outcome_type));
                assert(completed_entries(completed@)[i as int] == (choice_id@, outcome_type));
            }
            return true;
        }
        i = i + 1;
    }
    proof {
        lemma_elem_set_contains(completed_entries(completed@), (choice_id@, outcome_type));
    }
    false
}

/// Append a pair to the ledger unless it is already there. On the set
/// abstraction this is exactly `insert`.
#[verifier::loop_isolation(false)]
pub fn mark_outcome_completed(
    completed: &mut Vec<CompletedOutcome>,
    choice_id: &String,
    outcome_type: OutcomeType,
)
    requires
        forall|i: int, j: int|
            0 <= i < j < old(completed)@.len() ==> (#[trigger] old(completed)@[i])@ != (
            #[trigger] old(completed)@[j])@,
    ensures
        elem_set(completed_entries(final(completed)@)) == elem_set(
            completed_entries(old(completed)@),
        ).insert((choice_id@, outcome_type)),
        forall|i: int, j: int|
            0 <= i < j < final(completed)@.len() ==> (#[trigger] final(completed)@[i])@ != (
            #[trigger] final(completed)@[j])@,
{
    let ghost orig = completed@;
    let already = is_outcome_completed(completed, choice_id, outcome_type);
    if already {
        proof {
            assert(elem_set(completed_entries(orig)).insert((choice_id@, outcome_type)) =~= elem_set(
                completed_entries(orig),
            ));
        }
        return ;
    }
    proof {
        lemma_elem_set_contains(completed_entries(orig), (choice_id@, outcome_type));
    }
    completed.push(CompletedOutcome { choice_id: choice_id.clone(), outcome_type });
    proof {
        assert(completed_entries(completed@) =~= completed_entries(orig).push(
            (choice_id@, outcome_type),
        ));
        lemma_elem_set_push(completed_entries(orig), (choice_id@, outcome_type));
        assert forall|a: int, b: int| 0 <= a < b < completed@.len() implies (
        #[trigger] completed@[a])@ != (#[trigger] completed@[b])@ by {
            if b < orig.len() {
                assert(orig[a]@ != orig[b]@);
            } else {
                assert(!(exists|j: int| 0 <= j < orig.len() && completed_entries(orig)[j] == (
                choice_id@, outcome_type)));
                assert(completed_entries(orig)[a] != (choice_id@, outcome_type));
            }
        }
    }
}

/// Is a choice offered, given the player's current story flags? A choice
/// with no requirement is always offered; otherwise every required flag
/// must be present with exactly the required value.
pub open spec fn spec_choice_visible(c: NarrativeChoice, flags: Map<Seq<char>, Seq<char>>) -> bool {
    match c.requires_flag {
        None => true,
        Some(req) => forall|i: int|
            0 <= i < req@.len() ==> flags.contains_key((#[trigger] req@[i])@.0) && flags[req@[i]@.0]
                == req@[i]@.1,
    }
}

/// Decide visibility of one choice against the stored flags.
#[verifier::loop_isolation(false)]
pub fn choice_visible(choice: &NarrativeChoice, flags: &Vec<StoryFlag>) -> (r: bool)
    requires
        forall|i: int, j: int|
            0 <= i < j < flags@.len() ==> (#[trigger] flags@[i])@.0 != (#[trigger] flags@[j])@.0,
    ensures
        r == spec_choice_visible(*choice, assoc_map(flag_entries(flags@))),
{
    match choice.requires_flag {
        None => true,
        Some(ref req) => {
            let n: usize = req.len();
            let mut i: usize = 0;
            while i < n
                invariant
                    n == req@.len(),
                    i <= n,
                    forall|i2: int, j2: int|
                        0 <= i2 < j2 < flags@.len() ==> (#[trigger] flags@[i2])@.0 != (
                        #[trigger] flags@[j2])@.0,
                    forall|j: int|
                        0 <= j < i ==> assoc_map(flag_entries(flags@)).contains_key(
                            (#[trigger] req@[j])@.0,
                        ) && assoc_map(flag_entries(flags@))[req@[j]@.0] == req@[j]@.1,
                decreases n - i,
            {
                let ghost m = assoc_map(flag_entries(flags@));
                match get_story_flag(flags, req[i].key.as_str()) {
                    Some(v) => {
                        if !crate::text::str_eq_chars(v.as_str(), req[i].value.as_str()) {
                            proof {
                                assert(!(m.contains_key((#[trigger] req@[i as int])@.0)
                                    && m[req@[i as int]@.0] == req@[i as int]@.1));
                            }
                            return false;
                        }
                    },
                    None => {
                        proof {
                            assert(!(m.contains_key((#[trigger] req@[i as int])@.0)
                                && m[req@[i as int]@.0] == req@[i as int]@.1));
                        }
                        return false;
                    },
                }
                i = i + 1;
            }
            true
        },
    }
}

/// The flag-gated view of a location's choices: exactly those whose
/// requirements the player's story flags meet, in their given order.
#[verifier::loop_isolation(false)]
pub fn get_location_choices(
    choices: Vec<NarrativeChoice>,
    progress: &UserNarrativeProgress,
) -> (r: Vec<NarrativeChoice>)
    requires
        progress.wf(),
    ensures
        r@ == choices@.filter(
            |c: NarrativeChoice| spec_choice_visible(c, progress@.story_flags),
        ),
{
    let ghost pred = |c: NarrativeChoice| spec_choice_visible(c, progress@.story_flags);
    let ghost orig = choices@;
    let mut input = choices;
    let mut out: Vec<NarrativeChoice> = Vec::new();
    let ghost k: int = 0;
    proof {
        assert(orig.take(0).filter(pred) =~= Seq::<NarrativeChoice>::empty().filter(pred));
        reveal_with_fuel(Seq::filter, 1);
    }
    while input.len() > 0
        invariant
            0 <= k <= orig.len(),
            input@ == orig.skip(k),
            out@ == orig.take(k).filter(pred),
            progress.wf(),
            pred == |c: NarrativeChoice| spec_choice_visible(c, progress@.story_flags),
        decreases input@.len(),
    {
        let c = input.remove(0);
        proof {
            assert(orig.skip(k)[0] == orig[k]);
            assert(c == orig[k]);
            assert(input@ =~= orig.skip(k + 1));
        }
        let visible = choice_visible(&c, &progress.story_flags);
        proof {
            assert(visible == pred(c));
            assert(orig.take(k + 1) =~= orig.take(k) + seq![orig[k]]);
            Seq::<NarrativeChoice>::filter_distributes_over_add(orig.take(k), seq![orig[k]], pred);
            reveal_with_fuel(Seq::filter, 2);
            assert(seq![orig[k]].drop_last() =~= Seq::<NarrativeChoice>::empty());
            if pred(c) {
                assert(seq![orig[k]].filter(pred) =~= seq![orig[k]]);
            } else {
                assert(seq![orig[k]].filter(pred) =~= Seq::<NarrativeChoice>::empty());
            }
        }
        if visible {
            out.push(c);
        }
        proof {
            k = k + 1;
        }
    }
    proof {
        assert(orig.take(k) =~= orig);
    }
    out
}

/// The strict d20 priority: a natural 20 is always a critical success and a
/// natural 1 always a critical failure, whatever the modified total says;
/// only between those extremes does the total against the DC decide.
pub open spec fn spec_outcome_type(dice_roll: int, check_passed: bool) -> OutcomeType {
    if dice_roll == 20 {
        OutcomeType::CriticalSuccess
    } else if dice_roll == 1 {
        OutcomeType::CriticalFailure
    } else if check_passed {
        OutcomeType::Success
    } else {
        OutcomeType::Failure
    }
}

/// Law: the natural-roll overrides. A 20 yields a critical success even on
/// a failing total; a 1 yields a critical failure even on a passing total;
/// every other roll follows the pass flag alone.
pub proof fn lemma_natural_roll_overrides(dice_roll: int, check_passed: bool)
    ensures
        dice_roll == 20 ==> spec_outcome_type(dice_roll, check_passed)
            == OutcomeType::CriticalSuccess,
        dice_roll == 1 ==> spec_outcome_type(dice_roll, check_passed)
            == OutcomeType::CriticalFailure,
        dice_roll != 20 && dice_roll != 1 ==> spec_outcome_type(dice_roll, check_passed) == (
        if check_passed {
            OutcomeType::Success
        } else {
            OutcomeType::Failure
        }),
{
}

/// Classify one die roll.
pub fn determine_outcome_type(dice_roll: i64, check_passed: bool) -> (r: OutcomeType)
    ensures
        r == spec_outcome_type(dice_roll as int, check_passed),
{
    if dice_roll == 20 {
        OutcomeType::CriticalSuccess
    } else if dice_roll == 1 {
        OutcomeType::CriticalFailure
    } else if check_passed {
        OutcomeType::Success
    } else {
        OutcomeType::Failure
    }
}

/// Position `i` is the row the resolver picks from `s`: the first row of
/// the primary type, or — when no row has the primary type — the first row
/// of the fallback type.
pub open spec fn spec_selected_outcome(
    s: Seq<NarrativeOutcome>,
    primary: OutcomeType,
    fallback: OutcomeType,
    i: int,
) -> bool {
    &&& 0 <= i < s.len()
    &&& if exists|j: int| 0 <= j < s.len() && (#[trigger] s[j]).outcome_type == primary {
        s[i].outcome_type == primary && forall|j: int|
            0 <= j < i ==> (#[trigger] s[j]).outcome_type != primary
    } else {
        s[i].outcome_type == fallback && forall|j: int|
            0 <= j < i ==> (#[trigger] s[j]).outcome_type != fallback
    }
}

/// Find the first row with the given outcome type.
#[verifier::loop_isolation(false)]
fn find_outcome_index(outcomes: &Vec<NarrativeOutcome>, t: OutcomeType) -> (r: Option<usize>)
    ensures
        match r {
            Some(i) => i < outcomes@.len() && outcomes@[i as int].outcome_type == t && forall|
                j: int,
            | 0 <= j < i ==> (#[trigger] outcomes@[j]).outcome_type != t,
            None => forall|j: int|
                0 <= j < outcomes@.len() ==> (#[trigger] outcomes@[j]).outcome_type != t,
        },
{
    let n: usize = outcomes.len();
    let mut i: usize = 0;
    while i < n
        invariant
            n == outcomes@.len(),
            i <= n,
            forall|j: int| 0 <= j < i ==> (#[trigger] outcomes@[j]).outcome_type != t,
        decreases n - i,
    {
        if outcomes[i].outcome_type == t {
            return Some(i);
        }
        i = i + 1;
    }
    None
}

/// Pick the outcome row for a resolved check: the first row of the primary
/// type, falling back to the first row of the fallback type. Fails with
/// [`ErrorKind::NotFound`] exactly when neither type has a row — a
/// content-authoring error.
pub fn select_outcome_index(
    outcomes: &Vec<NarrativeOutcome>,
    primary: OutcomeType,
    fallback: OutcomeType,
) -> (r: Result<usize, GameError>)
    ensures
        r matches Ok(i) ==> spec_selected_outcome(outcomes@, primary, fallback, i as int),
        r is Err <==> (forall|j: int|
            0 <= j < outcomes@.len() ==> (#[trigger] outcomes@[j]).outcome_type != primary
                && outcomes@[j].outcome_type != fallback),
        r matches Err(e) ==> e.kind == ErrorKind::NotFound,
{
    match find_outcome_index(outcomes, primary) {
        Some(i) => Ok(i),
        None => match find_outcome_index(outcomes, fallback) {
            Some(i) => Ok(i),
            None => Err(GameError::not_found(String::from_str("No outcome found for choice"))),
        },
    }
}

} // verus!
