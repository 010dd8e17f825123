//! Store-row records outside the combat / narrative engines: achievements,
//! quests, the shop, inventories, and editor content. The engine never
//! computes over these; they are the data model the persistence
//! collaborator reads and writes, kept here so that the whole schema the
//! application speaks has one home.

use vstd::prelude::*;

verus! {

/// An achievement definition from the catalog.
#[derive(Debug)]
pub struct Achievement {
    pub id: String,
    pub category_id: String,
    pub name: String,
    pub description: String,
    pub icon: String,
    pub tier: String,
    pub requirement_type: String,
    pub requirement_value: Option<i32>,
    pub requirement_data: Option<String>,
    pub xp_reward: i32,
    pub gold_reward: i32,
    pub gem_reward: i32,
    pub unlock_item_id: Option<String>,
    pub unlock_item_type: Option<String>,
    pub is_secret: bool,
    pub required_level: i32,
    pub required_achievement_id: Option<String>,
    pub display_order: i32,
    pub is_repeatable: bool,
    pub tracking_key: Option<String>,
}

/// One user's progress on one achievement.
#[derive(Debug)]
pub struct UserAchievementProgress {
    pub achievement_id: String,
    pub current_progress: i32,
    pub completed: bool,
    pub completed_at: Option<String>,
    pub times_completed: i32,
}

/// An achievement joined with the user's progress on it.
#[derive(Debug)]
pub struct AchievementWithProgress {
    pub achievement: Achievement,
    pub progress: Option<UserAchievementProgress>,
}

/// Completion counts by achievement tier.
#[derive(Debug)]
pub struct TierStats {
    pub bronze_completed: i32,
    pub silver_completed: i32,
    pub gold_completed: i32,
    pub platinum_completed: i32,
    pub secret_completed: i32,
}

/// A pending "achievement unlocked" notification.
#[derive(Debug)]
pub struct AchievementNotification {
    pub id: i32,
    pub achievement_id: String,
    pub achievement: Achievement,
}

/// A ledger row recording one currency movement.
#[derive(Debug)]
pub struct CurrencyTransaction {
    pub id: i64,
    pub user_id: i64,
    pub currency_type: String,
    pub amount: i64,
    pub reason: String,
    pub reference_id: Option<String>,
    pub balance_after: i64,
    pub created_at: String,
}

/// A purchasable item in the gamification shop catalog.
#[derive(Debug)]
pub struct ShopItem {
    pub id: String,
    pub name: String,
    pub description: Option<String>,
    pub category: String,
    pub item_type: String,
    pub cost_gold: i64,
    pub cost_gems: i64,
    pub required_level: i64,
    pub is_limited_time: bool,
    pub available_until: Option<String>,
    pub stock_limit: Option<i64>,
    pub effects: String,
    pub icon: Option<String>,
    pub rarity: Option<String>,
    pub is_consumable: bool,
    pub max_stack: i64,
}

/// One owned stack in the gamification inventory.
#[derive(Debug)]
pub struct InventoryItem {
    pub id: i64,
    pub user_id: i64,
    pub item_id: String,
    pub quantity: i64,
    pub acquired_at: String,
    pub item: ShopItem,
}

/// An audit row for one shop purchase.
#[derive(Debug)]
pub struct PurchaseHistory {
    pub id: i64,
    pub user_id: i64,
    pub item_id: String,
    pub quantity: i64,
    pub cost_gold: i64,
    pub cost_gems: i64,
    pub purchased_at: String,
}

/// A quest definition from the catalog.
#[derive(Debug)]
pub struct Quest {
    pub id: String,
    pub quest_type: String,
    pub title: String,
    pub description: Option<String>,
    pub objective_type: String,
    pub objective_target: i64,
    pub reward_xp: i64,
    pub reward_gold: i64,
    pub reward_gems: i64,
    pub reward_item_id: Option<String>,
    pub icon: Option<String>,
    pub order_index: i64,
}

/// One user's progress on one quest.
#[derive(Debug)]
pub struct UserQuestProgress {
    pub id: i64,
    pub user_id: i64,
    pub quest_id: String,
    pub progress: i64,
    pub completed: bool,
    pub completed_at: Option<String>,
    pub quest: Quest,
}

/// What reaching a level unlocks.
#[derive(Debug)]
pub struct LevelReward {
    pub level: i64,
    pub xp_required: i64,
    pub reward_gold: i64,
    pub reward_gems: i64,
    pub reward_items: Option<String>,
    pub unlocks_feature: Option<String>,
    pub unlocks_category: Option<String>,
    pub title: Option<String>,
    pub description: Option<String>,
    pub icon: Option<String>,
}

/// A consumable item definition from the RPG shop catalog.
#[derive(Debug)]
pub struct ConsumableItem {
    pub id: String,
    pub name: String,
    pub description: String,
    pub item_type: String,
    pub health_restore: i64,
    pub mana_restore: i64,
    pub buff_type: Option<String>,
    pub buff_value: i64,
    pub buff_duration_turns: i64,
    pub buy_price: i64,
    pub sell_price: i64,
    pub icon: String,
    pub tier: String,
    pub stack_size: i64,
    pub created_at: String,
}

/// One owned consumable stack joined with its definition.
#[derive(Debug)]
pub struct UserConsumableInventoryItem {
    pub id: i64,
    pub user_id: i64,
    pub consumable_id: String,
    pub consumable: ConsumableItem,
    pub quantity: i64,
    pub acquired_at: String,
}

/// One slot of the rotating RPG shop.
#[derive(Debug)]
pub struct ShopInventoryItem {
    pub id: i64,
    pub item_type: String,
    pub item_id: String,
    pub available: bool,
    pub required_level: i64,
    pub stock_quantity: Option<i64>,
}

/// When the rotating shop last refreshed and when it next will.
#[derive(Debug)]
pub struct ShopRefreshState {
    pub last_refresh_time: String,
    pub next_refresh_time: String,
    pub refresh_count: i64,
}

/// The equipment a character currently wears, one id per slot.
#[derive(Debug)]
pub struct CharacterEquipment {
    pub user_id: i64,
    pub weapon_id: Option<String>,
    pub armor_id: Option<String>,
    pub accessory_id: Option<String>,
    pub shield_id: Option<String>,
    pub helmet_id: Option<String>,
    pub chest_id: Option<String>,
    pub boots_id: Option<String>,
    pub updated_at: String,
}

/// One ability a user has unlocked.
#[derive(Debug)]
pub struct UserAbility {
    pub id: i64,
    pub user_id: i64,
    pub ability_id: String,
    pub unlocked_at: String,
    pub times_used: i64,
}

/// A scripted non-combat encounter from the dungeon catalog.
#[derive(Debug)]
pub struct DungeonEncounter {
    pub id: String,
    pub encounter_type: String,
    pub floor_number: i64,
    pub description_prompt: String,
    pub required_stat: Option<String>,
    pub difficulty_rating: i64,
    pub rewards: Option<String>,
    pub penalties: Option<String>,
    pub rarity: String,
    pub created_at: String,
}

/// An enemy authored in the enemy editor.
#[derive(Debug)]
pub struct CustomEnemy {
    pub id: String,
    pub name: String,
    pub description: String,
    pub enemy_type: String,
    pub level: i32,
    pub base_health: i32,
    pub base_attack: i32,
    pub base_defense: i32,
    pub image_path: String,
    pub attack_animation: Option<String>,
    pub attacks: String,
    pub created_at: String,
    pub updated_at: String,
}

/// The editor's list view of a custom enemy.
#[derive(Debug)]
pub struct EnemyListItem {
    pub id: String,
    pub name: String,
    pub enemy_type: String,
    pub level: i32,
    pub base_health: i32,
    pub image_path: String,
}

/// One entry of the combined loot catalog, equipment or consumable.
#[derive(Debug)]
pub struct LootItemOption {
    pub id: String,
    pub name: String,
    pub description: Option<String>,
    pub category: String,
    pub item_type: String,
    pub tier: String,
    pub icon: Option<String>,
}

} // verus!
