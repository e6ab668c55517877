use vstd::prelude::*;
use vstd::string::*;
use crate::global::empire::{EmpirePlayerDataState, EmpireState, Timestamp};
use crate::text::{decimal_digits, u32_to_decimal};

verus! {

/// A request to donate items to the donor's empire, possibly in another
/// member's name.
#[derive(Clone, Debug)]
pub struct EmpireDonateItemMsg {
    pub player_entity_id: u64,
    pub item_id: i32,
    pub count: u32,
    pub is_cargo: bool,
    pub on_behalf_username: Option<String>,
}

/// The rows a donation reads.
#[derive(Clone, Debug)]
pub struct DonationRows {
    /// The empire membership of the donor (`request.player_entity_id`).
    pub donor: Option<EmpirePlayerDataState>,
    /// The empire of `donor`.
    pub empire: Option<EmpireState>,
    /// The username of the donor.
    pub donator_username: Option<String>,
    /// The player named `request.on_behalf_username`, if a name is given.
    pub on_behalf_entity_id: Option<u64>,
    /// The empire membership of `on_behalf_entity_id`.
    pub on_behalf_data: Option<EmpirePlayerDataState>,
    /// The tag of the donated item's description (`request.item_id`).
    pub item_tag: Option<String>,
}

/// The two notifications a donation can post to its empire.
#[derive(Clone, Copy, Debug, PartialEq, Eq, Structural)]
pub enum EmpireNotificationType {
    Donation,
    DonationByProxy,
}

/// A notification posted to an empire.
#[derive(Clone, Debug)]
pub struct EmpireNotification {
    pub kind: EmpireNotificationType,
    pub empire_entity_id: u64,
    pub text_args: Vec<String>,
}

/// What a donation writes: the credited member row, the empire row (both
/// shared with all other regions) and the notification.
#[derive(Clone, Debug)]
pub struct DonationOutcome {
    pub player_data: EmpirePlayerDataState,
    pub empire: EmpireState,
    pub notification: EmpireNotification,
}

/// The tag of the only item that can be donated.
pub open spec fn empire_currency_tag() -> Seq<char> {
    "Empire Currency"@
}

/// The member row that a donation is credited to, once the donor, the
/// empire and (for a donation in another's name) the named member are
/// known and in the same empire.
pub open spec fn beneficiary(request: EmpireDonateItemMsg, rows: DonationRows) -> Option<EmpirePlayerDataState> {
    match (rows.donor, rows.empire) {
        (Some(donor), Some(empire)) => match request.on_behalf_username {
            None => Some(donor),
            Some(_) => match (rows.on_behalf_entity_id, rows.on_behalf_data) {
                (Some(_), Some(data)) => if data.empire_entity_id == empire.entity_id {
                    Some(data)
                } else {
                    None
                },
                _ => None,
            },
        },
        _ => None,
    }
}

/// Why a donation is refused, if it is, in the order the checks are made.
pub open spec fn donation_error(request: EmpireDonateItemMsg, rows: DonationRows) -> Option<Seq<char>> {
    if rows.donor is None {
        Some("Player must be part of an empire to donate"@)
    } else if rows.empire is None {
        Some("This empire does not exist"@)
    } else if request.on_behalf_username is Some && rows.on_behalf_entity_id is None {
        Some("Player does not exist"@)
    } else if request.on_behalf_username is Some && rows.on_behalf_data is None {
        Some("That player is not part of an empire"@)
    } else if request.on_behalf_username is Some
        && rows.on_behalf_data->0.empire_entity_id != rows.empire->0.entity_id {
        Some("That player is not part of your empire"@)
    } else if request.is_cargo {
        Some("This cargo can't be donated"@)
    } else if rows.item_tag is None {
        Some("Unknown donated item"@)
    } else if rows.item_tag->0@ != empire_currency_tag() {
        Some("This item can't be donated"@)
    } else if u32::MAX - rows.empire->0.empire_currency_treasury < request.count {
        Some("Currency Overflow"@)
    } else {
        None
    }
}

/// A member row credited with `count` donated currency. A member whose
/// donations reach the empire's nobility threshold and who is not yet
/// noble becomes noble at `now`, and rank 9 is promoted to rank 8.
pub open spec fn credited(data: EmpirePlayerDataState, count: u32, nobility_threshold: i32, now: Timestamp) -> EmpirePlayerDataState {
    let donated = (data.donated_empire_currency + count) as u32;
    if data.donated_shards + donated >= (nobility_threshold as u32) && data.noble is None {
        EmpirePlayerDataState {
            donated_empire_currency: donated,
            noble: Some(now),
            rank: if data.rank == 9 { 8 } else { data.rank },
            ..data
        }
    } else {
        EmpirePlayerDataState { donated_empire_currency: donated, ..data }
    }
}

/// The text arguments of a donation's notification: the donor's name, the
/// count, and the name the donation was made in, if any.
pub open spec fn notification_args(request: EmpireDonateItemMsg, donator_username: Seq<char>) -> Seq<Seq<char>> {
    match request.on_behalf_username {
        Some(name) => seq![donator_username, decimal_digits(request.count as nat), name@],
        None => seq![donator_username, decimal_digits(request.count as nat)],
    }
}

/// The requirements of a donation that the handler does not check: the
/// donor of a known membership and empire has a username, and the credited
/// member's donation totals stay within `u32`.
pub open spec fn donation_within_bounds(request: EmpireDonateItemMsg, rows: DonationRows) -> bool {
    &&& (rows.donor is Some && rows.empire is Some ==> rows.donator_username is Some)
    &&& (beneficiary(request, rows) matches Some(p) ==> {
        &&& p.donated_empire_currency + request.count <= u32::MAX
        &&& p.donated_shards + p.donated_empire_currency + request.count <= u32::MAX
    })
}

/// A donation credits the member with exactly the donated count and changes
/// nothing of the membership but the donated currency, nobility and rank. A
/// member who is not noble becomes noble, at `now`, exactly when their
/// donated shards and currency, counting this donation, reach the
/// threshold; becoming noble promotes rank 9 to rank 8 and keeps any other
/// rank. Otherwise nobility and rank are unchanged; in particular a noble
/// member keeps the time they became noble.
pub proof fn lemma_credit_rules(data: EmpirePlayerDataState, count: u32, nobility_threshold: i32, now: Timestamp)
    requires
        data.donated_empire_currency + count <= u32::MAX,
    ensures
        ({
            let c = credited(data, count, nobility_threshold, now);
            let reaches = data.donated_shards + (data.donated_empire_currency + count) >= (nobility_threshold as u32);
            &&& c.donated_empire_currency == data.donated_empire_currency + count
            &&& c.entity_id == data.entity_id
            &&& c.empire_entity_id == data.empire_entity_id
            &&& c.donated_shards == data.donated_shards
            &&& (data.noble is None && reaches ==> c.noble == Some(now)
                && c.rank == (if data.rank == 9 { 8u8 } else { data.rank }))
            &&& (!(data.noble is None && reaches) ==> c.noble == data.noble && c.rank == data.rank)
            &&& (data.noble is None ==> (c.noble is Some <==> reaches))
        }),
{
}

/// The member credited by a donation is the donor, or for a donation in
/// another's name the named member, who then belongs to the donor's empire;
/// a donation that is not refused always has one.
pub proof fn lemma_beneficiary(request: EmpireDonateItemMsg, rows: DonationRows)
    ensures
        beneficiary(request, rows) matches Some(p) ==> {
            &&& rows.donor is Some && rows.empire is Some
            &&& (request.on_behalf_username is None ==> p == rows.donor->0)
            &&& (request.on_behalf_username is Some ==> rows.on_behalf_entity_id is Some
                && rows.on_behalf_data == Some(p) && p.empire_entity_id == rows.empire->0.entity_id)
        },
        donation_error(request, rows) is None ==> beneficiary(request, rows) is Some,
{
}

/// Why a donation is refused. Each refusal comes with its own message, the
/// first in this order that applies: no empire membership for the donor, no
/// empire, an unknown named player, a named player outside any empire, a
/// named player of another empire, cargo, an unknown item, an item other
/// than empire currency, a treasury that would overflow. A donation none of
/// these apply to is accepted.
pub proof fn lemma_donation_refusals(request: EmpireDonateItemMsg, rows: DonationRows)
    ensures
        ({
            let e = donation_error(request, rows);
            let named = request.on_behalf_username is Some;
            let member_ok = rows.donor is Some && rows.empire is Some;
            let named_ok = !named || (rows.on_behalf_entity_id is Some && rows.on_behalf_data is Some
                && rows.on_behalf_data->0.empire_entity_id == rows.empire->0.entity_id);
            let currency = rows.item_tag is Some && rows.item_tag->0@ == "Empire Currency"@;
            &&& (rows.donor is None ==> e == Some("Player must be part of an empire to donate"@))
            &&& (rows.donor is Some && rows.empire is None ==> e == Some("This empire does not exist"@))
            &&& (member_ok && named && rows.on_behalf_entity_id is None ==> e == Some("Player does not exist"@))
            &&& (member_ok && named && rows.on_behalf_entity_id is Some && rows.on_behalf_data is None
                ==> e == Some("That player is not part of an empire"@))
            &&& (member_ok && named && rows.on_behalf_entity_id is Some && rows.on_behalf_data is Some
                && rows.on_behalf_data->0.empire_entity_id != rows.empire->0.entity_id
                ==> e == Some("That player is not part of your empire"@))
            &&& (member_ok && named_ok && request.is_cargo ==> e == Some("This cargo can't be donated"@))
            &&& (member_ok && named_ok && !request.is_cargo && rows.item_tag is None
                ==> e == Some("Unknown donated item"@))
            &&& (member_ok && named_ok && !request.is_cargo && rows.item_tag is Some && !currency
                ==> e == Some("This item can't be donated"@))
            &&& (member_ok && named_ok && !request.is_cargo && currency
                ==> (e == Some("Currency Overflow"@)
                    <==> rows.empire->0.empire_currency_treasury + request.count > u32::MAX))
            &&& (e is None <==> member_ok && named_ok && !request.is_cargo && currency
                && rows.empire->0.empire_currency_treasury + request.count <= u32::MAX)
        }),
{
}

/// A donation's notification names the donor, then the count in decimal,
/// then, for a donation in another's name, that name.
pub proof fn lemma_notification_args(request: EmpireDonateItemMsg, donator_username: Seq<char>)
    ensures
        ({
            let args = notification_args(request, donator_username);
            &&& args.len() == (if request.on_behalf_username is Some { 3int } else { 2int })
            &&& args[0] == donator_username
            &&& args[1] == decimal_digits(request.count as nat)
            &&& (request.on_behalf_username matches Some(name) ==> args[2] == name@)
        }),
{
}

/// A donation's unchecked requirements are only these: a donor with a
/// membership and an empire has a username, and the credited member's
/// donated currency and donated shards plus currency, counting this
/// donation, fit in `u32`.
pub proof fn lemma_donation_bounds(request: EmpireDonateItemMsg, rows: DonationRows)
    ensures
        donation_within_bounds(request, rows) <==> {
            &&& (rows.donor is Some && rows.empire is Some ==> rows.donator_username is Some)
            &&& forall|p: EmpirePlayerDataState| beneficiary(request, rows) == Some(p) ==> {
                &&& p.donated_empire_currency + request.count <= u32::MAX
                &&& p.donated_shards + (p.donated_empire_currency + request.count) <= u32::MAX
            }
        },
{
}

/// How a donation fails outside its error results.
#[derive(Clone, Copy, Debug, PartialEq, Eq, Structural)]
pub enum DonationFault {
    /// The donor has no username.
    MissingUsername,
    /// The credited member's donation totals overflow `u32`.
    DonationOverflow,
}

/// The fault a donation would run into, in the order the handler meets
/// them, if any; a donation without one meets `donation_within_bounds`.
pub fn donation_fault(request: &EmpireDonateItemMsg, rows: &DonationRows) -> (res: Option<DonationFault>)
    ensures
        res is None <==> donation_within_bounds(*request, *rows),
        res == Some(DonationFault::MissingUsername) <==> (rows.donor is Some && rows.empire is Some
            && rows.donator_username is None),
{
    let (donor, empire) = match (&rows.donor, &rows.empire) {
        (Some(d), Some(e)) => (d, e),
        _ => return None,
    };
    if rows.donator_username.is_none() {
        return Some(DonationFault::MissingUsername);
    }
    let member = if request.on_behalf_username.is_some() {
        match (&rows.on_behalf_entity_id, &rows.on_behalf_data) {
            (Some(_), Some(data)) => {
                if data.empire_entity_id != empire.entity_id {
                    return None;
                }
                data
            },
            _ => return None,
        }
    } else {
        donor
    };
    if u32::MAX - member.donated_empire_currency < request.count {
        return Some(DonationFault::DonationOverflow);
    }
    if u32::MAX - member.donated_empire_currency - request.count < member.donated_shards {
        return Some(DonationFault::DonationOverflow);
    }
    None
}

fn credit_donation(data: EmpirePlayerDataState, count: u32, nobility_threshold: i32, now: Timestamp) -> (res: EmpirePlayerDataState)
    requires
        data.donated_empire_currency + count <= u32::MAX,
        data.donated_shards + data.donated_empire_currency + count <= u32::MAX,
    ensures
        res == credited(data, count, nobility_threshold, now),
{
    let mut data = data;
    data.donated_empire_currency = data.donated_empire_currency + count;
    if data.donated_shards + data.donated_empire_currency >= nobility_threshold as u32 && data.noble.is_none() {
        data.noble = Some(now);
        if data.rank == 9 {
            data.rank = 8;
        }
    }
    data
}

/// Donates items to the donor's empire. The donor must belong to an
/// existing empire; a donation in another's name needs that player to
/// exist and to belong to the same empire. The credited member's donated
/// currency grows by the count, possibly making them noble at `now`. Cargo
/// cannot be donated, and of items only empire currency, which is added to
/// the treasury unless the treasury would overflow. The donation is
/// announced to the empire.
pub fn process_message_on_destination(request: &EmpireDonateItemMsg, rows: DonationRows, now: Timestamp) -> (res: Result<DonationOutcome, String>)
    requires
        donation_within_bounds(*request, rows),
    ensures
        match res {
            Ok(outcome) => {
                &&& donation_error(*request, rows) is None
                &&& outcome.player_data == credited(
                    beneficiary(*request, rows)->0,
                    request.count,
                    rows.empire->0.nobility_threshold,
                    now,
                )
                &&& outcome.empire == (EmpireState {
                    empire_currency_treasury: (rows.empire->0.empire_currency_treasury + request.count) as u32,
                    ..rows.empire->0
                })
                &&& outcome.notification.kind == (if request.on_behalf_username is Some {
                    EmpireNotificationType::DonationByProxy
                } else {
                    EmpireNotificationType::Donation
                })
                &&& outcome.notification.empire_entity_id == rows.empire->0.entity_id
                &&& outcome.notification.text_args@.map_values(|s: String| s@) == notification_args(
                    *request,
                    rows.donator_username->0@,
                )
            },
            Err(e) => donation_error(*request, rows) == Some(e@),
        },
{
    let ghost spec_rows = rows;
    let donor = match rows.donor {
        Some(d) => d,
        None => return Err("Player must be part of an empire to donate".to_string()),
    };
    let mut empire = match rows.empire {
        Some(e) => e,
        None => return Err("This empire does not exist".to_string()),
    };
    let donator_name = rows.donator_username.unwrap();
    let mut player_data = donor;
    if request.on_behalf_username.is_some() {
        if rows.on_behalf_entity_id.is_none() {
            return Err("Player does not exist".to_string());
        }
        player_data = match rows.on_behalf_data {
            Some(d) => d,
            None => return Err("That player is not part of an empire".to_string()),
        };
        if player_data.empire_entity_id != empire.entity_id {
            return Err("That player is not part of your empire".to_string());
        }
    }
    assert(beneficiary(*request, spec_rows) == Some(player_data));
    let player_data = credit_donation(player_data, request.count, empire.nobility_threshold, now);

    if request.is_cargo {
        return Err("This cargo can't be donated".to_string());
    }
    let tag = match rows.item_tag {
        Some(t) => t,
        None => return Err("Unknown donated item".to_string()),
    };
    let currency = String::from_str("Empire Currency");
    if tag != currency {
        return Err("This item can't be donated".to_string());
    }
    if u32::MAX - empire.empire_currency_treasury < request.count {
        return Err("Currency Overflow".to_string());
    }
    empire.empire_currency_treasury = empire.empire_currency_treasury + request.count;

    let mut text_args: Vec<String> = Vec::new();
    text_args.push(donator_name);
    text_args.push(u32_to_decimal(request.count));
    let kind = match &request.on_behalf_username {
        Some(name) => {
            text_args.push(name.clone());
            EmpireNotificationType::DonationByProxy
        },
        None => EmpireNotificationType::Donation,
    };
    assert(text_args@.map_values(|s: String| s@) =~= notification_args(*request, spec_rows.donator_username->0@));
    let notification = EmpireNotification { kind, empire_entity_id: empire.entity_id, text_args };
    Ok(DonationOutcome { player_data, empire, notification })
}

} // verus!
