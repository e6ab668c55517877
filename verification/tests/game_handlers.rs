use inter_module::game::grant_hub_item::{
    grant_collectible, process_message_on_destination as grant_hub_item, CollectibleGrant, GrantHubItemMsg,
    HubItemType,
};
use inter_module::game::restore_skills::{
    process_message_on_destination as restore_skills, ExperienceStack, ExperienceState, RestoreSkillsMsg,
};

fn stack(skill_id: i32, quantity: i32) -> ExperienceStack {
    ExperienceStack { skill_id, quantity }
}

fn experience(stacks: Vec<ExperienceStack>) -> ExperienceState {
    ExperienceState { entity_id: 42, experience_stacks: stacks }
}

fn restore(stacks: Vec<ExperienceStack>) -> RestoreSkillsMsg {
    RestoreSkillsMsg { player_entity_id: 42, experience_stacks: stacks }
}

#[test]
fn restore_raises_lower_skills_and_keeps_higher_ones() {
    let mut exp = experience(vec![stack(1, 100), stack(2, 500)]);
    restore_skills(&mut exp, restore(vec![stack(1, 300), stack(2, 200)]));
    assert_eq!(exp.entity_id, 42);
    assert_eq!(exp.experience_stacks, vec![stack(1, 300), stack(2, 500)]);
}

#[test]
fn restore_appends_skills_the_player_lacks() {
    let mut exp = experience(vec![stack(1, 100)]);
    restore_skills(&mut exp, restore(vec![stack(7, 50), stack(3, 10)]));
    assert_eq!(exp.experience_stacks, vec![stack(1, 100), stack(7, 50), stack(3, 10)]);
}

#[test]
fn restore_with_repeated_skill_keeps_the_largest() {
    let mut exp = experience(vec![]);
    restore_skills(&mut exp, restore(vec![stack(4, 10), stack(4, 30), stack(4, 20)]));
    assert_eq!(exp.experience_stacks, vec![stack(4, 30)]);
}

#[test]
fn restore_raises_only_the_first_stack_of_a_skill() {
    let mut exp = experience(vec![stack(5, 1), stack(5, 2)]);
    restore_skills(&mut exp, restore(vec![stack(5, 9)]));
    assert_eq!(exp.experience_stacks, vec![stack(5, 9), stack(5, 2)]);
}

#[test]
fn restore_twice_is_restore_once() {
    let request = vec![stack(1, 300), stack(9, 40), stack(9, 80), stack(2, 1)];
    let mut once = experience(vec![stack(1, 100), stack(2, 500)]);
    restore_skills(&mut once, restore(request.clone()));
    let mut twice = experience(once.experience_stacks.clone());
    restore_skills(&mut twice, restore(request));
    assert_eq!(once.experience_stacks, twice.experience_stacks);
    assert_eq!(once.experience_stacks, vec![stack(1, 300), stack(2, 500), stack(9, 80)]);
}

#[test]
fn restore_never_lowers_negative_quantities() {
    let mut exp = experience(vec![stack(1, -5)]);
    restore_skills(&mut exp, restore(vec![stack(1, -10)]));
    assert_eq!(exp.experience_stacks, vec![stack(1, -5)]);
}

fn hub_request(item_type: HubItemType, item_id: i32, quantity: u32) -> GrantHubItemMsg {
    GrantHubItemMsg { player_identity: [7u8; 32], item_type, item_id, quantity }
}

#[test]
fn grant_collectible_grants_quantity_times() {
    let res = grant_hub_item(&hub_request(HubItemType::Collectible, 12, 3), None, Some(5), true);
    assert_eq!(res, Ok(vec![CollectibleGrant { collectible_id: 12, count: 3 }]));
}

#[test]
fn grant_premium_item_grants_each_collectible() {
    let res = grant_hub_item(&hub_request(HubItemType::PremiumItem, 900, 2), Some(vec![5, 6, 5]), Some(5), true);
    assert_eq!(
        res,
        Ok(vec![
            CollectibleGrant { collectible_id: 5, count: 2 },
            CollectibleGrant { collectible_id: 6, count: 2 },
            CollectibleGrant { collectible_id: 5, count: 2 },
        ])
    );
}

#[test]
fn grant_empty_premium_item_needs_no_user() {
    let res = grant_hub_item(&hub_request(HubItemType::PremiumItem, 900, 2), Some(vec![]), None, false);
    assert_eq!(res, Ok(vec![]));
}

#[test]
fn grant_to_unknown_user_fails() {
    let res = grant_hub_item(&hub_request(HubItemType::Collectible, 12, 1), None, None, true);
    assert_eq!(res, Err("Unknown user".to_string()));
}

#[test]
fn grant_without_vault_fails() {
    let res = grant_hub_item(&hub_request(HubItemType::PremiumItem, 1, 1), Some(vec![3]), Some(8), false);
    assert_eq!(res, Err("Unknown vault state".to_string()));
}

#[test]
fn grant_zero_quantity_still_checks_the_vault() {
    assert_eq!(
        grant_hub_item(&hub_request(HubItemType::Collectible, 12, 0), None, Some(1), false),
        Err("Unknown vault state".to_string())
    );
    assert_eq!(
        grant_hub_item(&hub_request(HubItemType::Collectible, 12, 0), None, Some(1), true),
        Ok(vec![CollectibleGrant { collectible_id: 12, count: 0 }])
    );
}

#[test]
fn grant_single_collectible() {
    assert_eq!(grant_collectible(Some(1), true, 4, 9), Ok(CollectibleGrant { collectible_id: 4, count: 9 }));
    assert_eq!(grant_collectible(None, false, 4, 9), Err("Unknown user".to_string()));
}
