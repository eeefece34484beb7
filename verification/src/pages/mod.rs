pub mod dungeon_combat;
pub mod battle_3v3;
pub mod semi_active_battle;
pub mod map;
pub mod battle_result;
pub mod battle;
pub mod inventory;
pub mod expedition_in_progress;
pub mod bonus_selection;
pub mod dungeon_defeat;
pub mod expedition_result;
pub mod death;
pub mod rest;
pub mod afk_farm;
pub mod cards;
pub mod menu;
pub mod hero_info;
pub mod hero_overview;
pub mod collection;
pub mod monster_list;
pub mod monster_detail;
pub mod monster_upgrade;
pub mod expedition_team_select;
pub mod expedition_map;
pub mod expedition_setup;
pub mod expedition_summary;
pub mod between_floors;
pub mod home;
pub mod hunt_monster_list;
pub mod hunt_battle_result;
pub mod skill_selection;
pub mod rustymon_list;
pub mod quest_list;
pub mod rustymon_skills;
pub mod rustymon_summon;
pub mod rustymon_detail;
pub mod fragment_collection_page;
pub mod crafting;
pub mod equipment;
