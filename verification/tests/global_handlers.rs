use inter_module::global::claim_set_name::{
    claim_name_write, normalize_claim_name, process_message_on_destination as claim_set_name, screen_claim_name,
    ClaimSetNameMsg,
};
use inter_module::global::empire::{EmpirePlayerDataState, EmpireState, Timestamp};
use inter_module::global::empire_add_currency::{
    process_message_on_destination as empire_add_currency, EmpireAddCurrencyMsg,
};
use inter_module::global::empire_donate_item::{
    donation_fault, process_message_on_destination as empire_donate_item, DonationFault, DonationRows, EmpireDonateItemMsg, EmpireNotificationType,
};
use inter_module::global::npc_place_watchtowers::{
    process_message_on_destination as npc_place_watchtowers, EmpireChunkState, EmpireNodeState, NpcPlaceWatchtowersMsg,
    NpcWatchtower, OffsetCoordinates,
};
use inter_module::rows::RowWrite;
use inter_module::text::u32_to_decimal;

fn claim(id: u64, name: &str) -> ClaimSetNameMsg {
    ClaimSetNameMsg { claim_entity_id: id, new_name: name.to_string() }
}

#[test]
fn claim_name_is_lowercased_and_inserted() {
    let w = claim_set_name(&claim(10, "My Town"), None, false).unwrap();
    assert_eq!(w.row.entity_id, 10);
    assert_eq!(w.row.name_lowercase, "my town");
    assert_eq!(w.write, RowWrite::Insert);
}

#[test]
fn claim_name_of_existing_row_is_updated() {
    let w = claim_set_name(&claim(10, "Harbor"), None, true).unwrap();
    assert_eq!(w.row.name_lowercase, "harbor");
    assert_eq!(w.write, RowWrite::Update);
}

#[test]
fn claim_name_lowercases_beyond_ascii() {
    let w = claim_set_name(&claim(3, "ÄRGERLICH ÖDE"), None, false).unwrap();
    assert_eq!(w.row.name_lowercase, "ärgerlich öde");
}

#[test]
fn claim_name_with_default_prefix_is_refused_in_any_case() {
    assert_eq!(claim_set_name(&claim(10, "claimed area (3)"), None, true).err(), Some("This name cannot be used".to_string()));
    assert_eq!(claim_set_name(&claim(10, "Claimed Area (Mine)"), None, true).err(), Some("This name cannot be used".to_string()));
    assert_eq!(claim_set_name(&claim(10, "CLAIMED AREA ("), Some(10), true).err(), Some("This name cannot be used".to_string()));
}

#[test]
fn claim_name_close_to_prefix_is_allowed() {
    assert!(claim_set_name(&claim(10, "claimed area"), None, true).is_ok());
    assert!(claim_set_name(&claim(10, "claimed area 3"), None, true).is_ok());
    assert!(claim_set_name(&claim(10, "my claimed area (3)"), None, true).is_ok());
}

#[test]
fn claim_name_taken_by_another_claim_is_refused() {
    assert_eq!(claim_set_name(&claim(10, "Harbor"), Some(11), true).err(), Some("This name is already taken".to_string()));
}

#[test]
fn claim_may_change_capitalization_of_its_own_name() {
    let w = claim_set_name(&claim(10, "HARBOR"), Some(10), true).unwrap();
    assert_eq!(w.row.name_lowercase, "harbor");
    assert_eq!(w.write, RowWrite::Update);
}

#[test]
fn claim_name_steps() {
    assert_eq!(normalize_claim_name("AbC"), Ok("abc".to_string()));
    assert_eq!(screen_claim_name("claimed area (x".to_string()), Err("This name cannot be used".to_string()));
    assert_eq!(screen_claim_name("claimed".to_string()), Ok("claimed".to_string()));
    assert_eq!(claim_name_write(4, "x".to_string(), Some(5), false).err(), Some("This name is already taken".to_string()));
}

fn empire(id: u64, treasury: u32, threshold: i32) -> EmpireState {
    EmpireState { entity_id: id, empire_currency_treasury: treasury, nobility_threshold: threshold }
}

#[test]
fn add_currency_grows_the_treasury() {
    let res = empire_add_currency(Some(empire(3, 100, 0)), EmpireAddCurrencyMsg { empire_entity_id: 3, amount: 25 });
    assert_eq!(res, Ok(empire(3, 125, 0)));
}

#[test]
fn add_currency_to_missing_empire_fails() {
    let res = empire_add_currency(None, EmpireAddCurrencyMsg { empire_entity_id: 3, amount: 25 });
    assert_eq!(res, Err("This empire does not exist".to_string()));
}

fn member(id: u64, empire_id: u64, rank: u8, shards: u32, currency: u32, noble: Option<Timestamp>) -> EmpirePlayerDataState {
    EmpirePlayerDataState {
        entity_id: id,
        empire_entity_id: empire_id,
        rank,
        donated_shards: shards,
        donated_empire_currency: currency,
        noble,
    }
}

fn donation(count: u32, is_cargo: bool, on_behalf: Option<&str>) -> EmpireDonateItemMsg {
    EmpireDonateItemMsg {
        player_entity_id: 1,
        item_id: 77,
        count,
        is_cargo,
        on_behalf_username: on_behalf.map(|s| s.to_string()),
    }
}

fn rows(donor: Option<EmpirePlayerDataState>, emp: Option<EmpireState>) -> DonationRows {
    DonationRows {
        donor,
        empire: emp,
        donator_username: Some("alice".to_string()),
        on_behalf_entity_id: None,
        on_behalf_data: None,
        item_tag: Some("Empire Currency".to_string()),
    }
}

const NOW: Timestamp = Timestamp { micros_since_unix_epoch: 1_700_000_000_000_000 };

#[test]
fn donation_credits_donor_and_treasury() {
    let out = empire_donate_item(&donation(40, false, None), rows(Some(member(1, 3, 9, 0, 10, None)), Some(empire(3, 500, 1000))), NOW).unwrap();
    assert_eq!(out.player_data, member(1, 3, 9, 0, 50, None));
    assert_eq!(out.empire, empire(3, 540, 1000));
    assert_eq!(out.notification.kind, EmpireNotificationType::Donation);
    assert_eq!(out.notification.empire_entity_id, 3);
    assert_eq!(out.notification.text_args, vec!["alice".to_string(), "40".to_string()]);
}

#[test]
fn donation_reaching_threshold_makes_noble_and_promotes() {
    let out = empire_donate_item(&donation(40, false, None), rows(Some(member(1, 3, 9, 60, 0, None)), Some(empire(3, 0, 100))), NOW).unwrap();
    assert_eq!(out.player_data, member(1, 3, 8, 60, 40, Some(NOW)));
}

#[test]
fn donation_keeps_existing_nobility() {
    let earlier = Timestamp { micros_since_unix_epoch: 5 };
    let out = empire_donate_item(&donation(40, false, None), rows(Some(member(1, 3, 9, 60, 0, Some(earlier))), Some(empire(3, 0, 100))), NOW).unwrap();
    assert_eq!(out.player_data, member(1, 3, 9, 60, 40, Some(earlier)));
}

#[test]
fn donation_noble_other_rank_is_not_promoted() {
    let out = empire_donate_item(&donation(1, false, None), rows(Some(member(1, 3, 4, 0, 0, None)), Some(empire(3, 0, 1))), NOW).unwrap();
    assert_eq!(out.player_data, member(1, 3, 4, 0, 1, Some(NOW)));
}

#[test]
fn donation_negative_threshold_wraps_to_a_large_one() {
    let out = empire_donate_item(&donation(1, false, None), rows(Some(member(1, 3, 9, 0, 0, None)), Some(empire(3, 0, -1))), NOW).unwrap();
    assert_eq!(out.player_data.noble, None);
}

#[test]
fn donation_on_behalf_credits_the_named_member() {
    let mut r = rows(Some(member(1, 3, 5, 0, 0, None)), Some(empire(3, 7, 1000)));
    r.on_behalf_entity_id = Some(2);
    r.on_behalf_data = Some(member(2, 3, 9, 0, 3, None));
    let out = empire_donate_item(&donation(12, false, Some("bob")), r, NOW).unwrap();
    assert_eq!(out.player_data, member(2, 3, 9, 0, 15, None));
    assert_eq!(out.empire, empire(3, 19, 1000));
    assert_eq!(out.notification.kind, EmpireNotificationType::DonationByProxy);
    assert_eq!(out.notification.text_args, vec!["alice".to_string(), "12".to_string(), "bob".to_string()]);
}

fn donation_error(req: EmpireDonateItemMsg, r: DonationRows) -> String {
    empire_donate_item(&req, r, NOW).err().unwrap()
}

#[test]
fn donation_errors() {
    let donor = Some(member(1, 3, 5, 0, 0, None));
    let emp = Some(empire(3, 7, 1000));
    assert_eq!(donation_error(donation(1, false, None), rows(None, emp)), "Player must be part of an empire to donate");
    assert_eq!(donation_error(donation(1, false, None), rows(donor, None)), "This empire does not exist");
    assert_eq!(donation_error(donation(1, false, Some("bob")), rows(donor, emp)), "Player does not exist");
    let mut r = rows(donor, emp);
    r.on_behalf_entity_id = Some(2);
    assert_eq!(donation_error(donation(1, false, Some("bob")), r.clone()), "That player is not part of an empire");
    r.on_behalf_data = Some(member(2, 4, 9, 0, 0, None));
    assert_eq!(donation_error(donation(1, false, Some("bob")), r), "That player is not part of your empire");
    assert_eq!(donation_error(donation(1, true, None), rows(donor, emp)), "This cargo can't be donated");
    let mut r = rows(donor, emp);
    r.item_tag = None;
    assert_eq!(donation_error(donation(1, false, None), r), "Unknown donated item");
    let mut r = rows(donor, emp);
    r.item_tag = Some("Wood".to_string());
    assert_eq!(donation_error(donation(1, false, None), r), "This item can't be donated");
    assert_eq!(donation_error(donation(10, false, None), rows(donor, Some(empire(3, u32::MAX - 5, 1000)))), "Currency Overflow");
}

#[test]
fn donation_filling_the_treasury_exactly_succeeds() {
    let out = empire_donate_item(&donation(5, false, None), rows(Some(member(1, 3, 5, 0, 0, None)), Some(empire(3, u32::MAX - 5, 1000))), NOW).unwrap();
    assert_eq!(out.empire.empire_currency_treasury, u32::MAX);
}

#[test]
fn decimal_text() {
    assert_eq!(u32_to_decimal(0), "0");
    assert_eq!(u32_to_decimal(7), "7");
    assert_eq!(u32_to_decimal(10), "10");
    assert_eq!(u32_to_decimal(1203), "1203");
    assert_eq!(u32_to_decimal(u32::MAX), "4294967295");
}

fn tower(id: u64, chunks: Vec<u64>) -> NpcWatchtower {
    NpcWatchtower { building_entity_id: id, location: OffsetCoordinates { x: id as i32, z: 2, dimension: 1 }, chunk_indexes: chunks }
}

#[test]
fn watchtowers_become_nodes_and_chunks() {
    let msg = NpcPlaceWatchtowersMsg { watchtowers: vec![tower(100, vec![1, 2]), tower(200, vec![]), tower(300, vec![9])], energy: 5, upkeep: 2 };
    let p = npc_place_watchtowers(&msg, 77, &vec![11, 22, 33]);
    assert_eq!(p.nodes.len(), 3);
    assert_eq!(
        p.nodes[1],
        EmpireNodeState {
            entity_id: 200,
            empire_entity_id: 77,
            chunk_index: 22,
            energy: 5,
            active: true,
            upkeep: 2,
            location: OffsetCoordinates { x: 200, z: 2, dimension: 1 },
        }
    );
    assert_eq!(
        p.chunks,
        vec![
            EmpireChunkState { chunk_index: 1, empire_entity_id: 77, watchtower_entity_id: 100 },
            EmpireChunkState { chunk_index: 2, empire_entity_id: 77, watchtower_entity_id: 100 },
            EmpireChunkState { chunk_index: 9, empire_entity_id: 77, watchtower_entity_id: 300 },
        ]
    );
    assert_eq!(p.total_chunks, 3);
}

#[test]
fn watchtowers_without_energy_are_inactive() {
    let msg = NpcPlaceWatchtowersMsg { watchtowers: vec![tower(1, vec![4])], energy: 0, upkeep: 0 };
    let p = npc_place_watchtowers(&msg, 5, &vec![4]);
    assert!(!p.nodes[0].active);
    let none = npc_place_watchtowers(&NpcPlaceWatchtowersMsg { watchtowers: vec![], energy: 1, upkeep: 1 }, 5, &vec![]);
    assert_eq!(none.total_chunks, 0);
    assert!(none.nodes.is_empty());
}

#[test]
fn donation_faults() {
    let donor = Some(member(1, 3, 5, 0, 0, None));
    let emp = Some(empire(3, 7, 1000));
    assert_eq!(donation_fault(&donation(1, false, None), &rows(donor, emp)), None);
    let mut r = rows(donor, emp);
    r.donator_username = None;
    assert_eq!(donation_fault(&donation(1, false, None), &r), Some(DonationFault::MissingUsername));
    let mut r = rows(None, emp);
    r.donator_username = None;
    assert_eq!(donation_fault(&donation(1, false, None), &r), None);
    let rich = Some(member(1, 3, 5, 0, u32::MAX - 1, None));
    assert_eq!(donation_fault(&donation(2, false, None), &rows(rich, emp)), Some(DonationFault::DonationOverflow));
    let shards = Some(member(1, 3, 5, 10, u32::MAX - 10, None));
    assert_eq!(donation_fault(&donation(1, false, None), &rows(shards, emp)), Some(DonationFault::DonationOverflow));
    assert_eq!(donation_fault(&donation(0, false, None), &rows(shards, emp)), None);
    let mut r = rows(donor, emp);
    r.on_behalf_entity_id = Some(2);
    r.on_behalf_data = Some(member(2, 4, 9, 0, u32::MAX, None));
    assert_eq!(donation_fault(&donation(5, false, Some("bob")), &r), None);
}
