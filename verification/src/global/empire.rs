use vstd::prelude::*;

verus! {

/// A point in time, in microseconds since the Unix epoch.
#[derive(Clone, Copy, Debug, PartialEq, Eq, Structural)]
pub struct Timestamp {
    pub micros_since_unix_epoch: i64,
}

/// The fields of an empire row that the inter-module handlers read and
/// write.
#[derive(Clone, Copy, Debug, PartialEq, Eq, Structural)]
pub struct EmpireState {
    pub entity_id: u64,
    pub empire_currency_treasury: u32,
    pub nobility_threshold: i32,
}

/// The fields of a player's empire membership row that the inter-module
/// handlers read and write.
#[derive(Clone, Copy, Debug, PartialEq, Eq, Structural)]
pub struct EmpirePlayerDataState {
    pub entity_id: u64,
    pub empire_entity_id: u64,
    pub rank: u8,
    pub donated_shards: u32,
    pub donated_empire_currency: u32,
    pub noble: Option<Timestamp>,
}

} // verus!
