//! Dungeon exploration state: one record per user tracking position,
//! whether a fight is in progress, and cumulative tallies.

use vstd::prelude::*;
use crate::stats::MAX_RESOURCE;

verus! {

/// Per-user dungeon progress, mirrored from the store.
#[derive(Clone, Debug)]
pub struct UserDungeonProgress {
    pub user_id: i64,
    pub current_floor: i64,
    pub deepest_floor_reached: i64,
    pub in_combat: bool,
    pub current_enemy_id: Option<String>,
    pub current_enemy_health: Option<i64>,
    pub current_room_type: Option<String>,
    pub total_enemies_defeated: i64,
    pub total_bosses_defeated: i64,
    pub total_floors_cleared: i64,
    pub total_deaths: i64,
    pub total_gold_earned: i64,
    pub total_xp_earned: i64,
    pub last_room_description: Option<String>,
}

/// Mathematical view of [`UserDungeonProgress`].
pub struct DungeonProgressView {
    pub user_id: int,
    pub current_floor: int,
    pub deepest_floor_reached: int,
    pub in_combat: bool,
    pub current_enemy_id: Option<Seq<char>>,
    pub current_enemy_health: Option<int>,
    pub current_room_type: Option<Seq<char>>,
    pub total_enemies_defeated: int,
    pub total_bosses_defeated: int,
    pub total_floors_cleared: int,
    pub total_deaths: int,
    pub total_gold_earned: int,
    pub total_xp_earned: int,
    pub last_room_description: Option<Seq<char>>,
}

impl View for UserDungeonProgress {
    type V = DungeonProgressView;

    open spec fn view(&self) -> DungeonProgressView {
        DungeonProgressView {
            user_id: self.user_id as int,
            current_floor: self.current_floor as int,
            deepest_floor_reached: self.deepest_floor_reached as int,
            in_combat: self.in_combat,
            current_enemy_id: match self.current_enemy_id {
                Some(ref s) => Some(s@),
                None => None,
            },
            current_enemy_health: match self.current_enemy_health {
                Some(h) => Some(h as int),
                None => None,
            },
            current_room_type: match self.current_room_type {
                Some(ref s) => Some(s@),
                None => None,
            },
            total_enemies_defeated: self.total_enemies_defeated as int,
            total_bosses_defeated: self.total_bosses_defeated as int,
            total_floors_cleared: self.total_floors_cleared as int,
            total_deaths: self.total_deaths as int,
            total_gold_earned: self.total_gold_earned as int,
            total_xp_earned: self.total_xp_earned as int,
            last_room_description: match self.last_room_description {
                Some(ref s) => Some(s@),
                None => None,
            },
        }
    }
}

impl DungeonProgressView {
    /// Tallies are non-negative and bounded so running totals stay in `i64`.
    pub open spec fn wf(self) -> bool {
        &&& 1 <= self.current_floor <= MAX_RESOURCE
        &&& 1 <= self.deepest_floor_reached <= MAX_RESOURCE
        &&& 0 <= self.total_enemies_defeated <= MAX_RESOURCE
        &&& 0 <= self.total_bosses_defeated <= MAX_RESOURCE
        &&& 0 <= self.total_floors_cleared <= MAX_RESOURCE
        &&& 0 <= self.total_deaths <= MAX_RESOURCE
        &&& 0 <= self.total_gold_earned <= MAX_RESOURCE
        &&& 0 <= self.total_xp_earned <= MAX_RESOURCE
        &&& match self.current_enemy_health {
            Some(h) => 0 <= h <= MAX_RESOURCE,
            None => true,
        }
    }
}

impl UserDungeonProgress {
    pub open spec fn wf(&self) -> bool {
        self@.wf()
    }

    /// A copy whose view is known to equal this record's view.
    pub fn duplicate(&self) -> (r: UserDungeonProgress)
        ensures
            r@ == self@,
    {
        UserDungeonProgress {
            user_id: self.user_id,
            current_floor: self.current_floor,
            deepest_floor_reached: self.deepest_floor_reached,
            in_combat: self.in_combat,
            current_enemy_id: match self.current_enemy_id {
                Some(ref s) => Some(s.clone()),
                None => None,
            },
            current_enemy_health: self.current_enemy_health,
            current_room_type: match self.current_room_type {
                Some(ref s) => Some(s.clone()),
                None => None,
            },
            total_enemies_defeated: self.total_enemies_defeated,
            total_bosses_defeated: self.total_bosses_defeated,
            total_floors_cleared: self.total_floors_cleared,
            total_deaths: self.total_deaths,
            total_gold_earned: self.total_gold_earned,
            total_xp_earned: self.total_xp_earned,
            last_room_description: match self.last_room_description {
                Some(ref s) => Some(s.clone()),
                None => None,
            },
        }
    }

    /// The record a user starts with: floor 1, not in combat, all tallies 0.
    pub fn initial(user_id: i64) -> (p: UserDungeonProgress)
        ensures
            p@ == initial_dungeon_progress_view(user_id as int),
            p.wf(),
    {
        UserDungeonProgress {
            user_id,
            current_floor: 1,
            deepest_floor_reached: 1,
            in_combat: false,
            current_enemy_id: None,
            current_enemy_health: None,
            current_room_type: Some(String::from_str("entrance")),
            total_enemies_defeated: 0,
            total_bosses_defeated: 0,
            total_floors_cleared: 0,
            total_deaths: 0,
            total_gold_earned: 0,
            total_xp_earned: 0,
            last_room_description: None,
        }
    }
}

/// The starting dungeon record as a view.
pub open spec fn initial_dungeon_progress_view(user_id: int) -> DungeonProgressView {
    DungeonProgressView {
        user_id: user_id,
        current_floor: 1,
        deepest_floor_reached: 1,
        in_combat: false,
        current_enemy_id: None,
        current_enemy_health: None,
        current_room_type: Some("entrance"@),
        total_enemies_defeated: 0,
        total_bosses_defeated: 0,
        total_floors_cleared: 0,
        total_deaths: 0,
        total_gold_earned: 0,
        total_xp_earned: 0,
        last_room_description: None,
    }
}

} // verus!
