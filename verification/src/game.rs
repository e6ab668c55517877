//! Messages handled by a region (game) module.
pub mod restore_skills;
pub mod grant_hub_item;
