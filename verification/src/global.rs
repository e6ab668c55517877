//! Messages handled by the global module, and the global module's reducers.
pub mod claim_set_name;
pub mod empire;
pub mod empire_add_currency;
pub mod empire_donate_item;
pub mod npc_place_watchtowers;
pub mod reducers;
