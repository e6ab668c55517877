use vstd::prelude::*;
use crate::global::empire::EmpireState;

verus! {

/// A request to add currency to an empire's treasury.
#[derive(Clone, Copy, Debug, PartialEq, Eq, Structural)]
pub struct EmpireAddCurrencyMsg {
    pub empire_entity_id: u64,
    pub amount: u32,
}

/// Adds currency to an empire's treasury. `empire` is the empire row of
/// `request.empire_entity_id`, if there is one; the returned row is to be
/// shared with all other regions.
pub fn process_message_on_destination(empire: Option<EmpireState>, request: EmpireAddCurrencyMsg) -> (res: Result<EmpireState, String>)
    requires
        empire matches Some(e) ==> e.empire_currency_treasury + request.amount <= u32::MAX,
    ensures
        match empire {
            None => res matches Err(e) && e@ == "This empire does not exist"@,
            Some(e) => res == Ok::<EmpireState, String>(EmpireState {
                empire_currency_treasury: (e.empire_currency_treasury + request.amount) as u32,
                ..e
            }),
        },
{
    match empire {
        None => Err("This empire does not exist".to_string()),
        Some(mut e) => {
            e.empire_currency_treasury = e.empire_currency_treasury + request.amount;
            Ok(e)
        },
    }
}

} // verus!
