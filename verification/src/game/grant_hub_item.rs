use vstd::prelude::*;

verus! {

/// The kinds of hub items a player can be granted.
#[derive(Clone, Copy, Debug, PartialEq, Eq, Structural)]
pub enum HubItemType {
    HexiteShards,
    Collectible,
    PremiumItem,
}

/// A request to grant a hub item to a player.
#[derive(Clone, Debug)]
pub struct GrantHubItemMsg {
    pub player_identity: [u8; 32],
    pub item_type: HubItemType,
    pub item_id: i32,
    pub quantity: u32,
}

/// One collectible to add to the player's vault, locked, `count` times.
#[derive(Clone, Copy, Debug, PartialEq, Eq, Structural)]
pub struct CollectibleGrant {
    pub collectible_id: i32,
    pub count: u32,
}

/// The collectibles a hub item stands for: the collectible itself, or the
/// collectibles of a premium item, in the order of its description.
pub open spec fn hub_item_collectibles(
    item_type: HubItemType,
    item_id: i32,
    premium_collectible_ids: Option<Seq<i32>>,
) -> Seq<i32> {
    match item_type {
        HubItemType::Collectible => seq![item_id],
        _ => premium_collectible_ids.unwrap(),
    }
}

/// The contents of an optional list of collectibles.
pub open spec fn ids_view(ids: Option<Vec<i32>>) -> Option<Seq<i32>> {
    match ids {
        Some(v) => Some(v@),
        None => None,
    }
}

/// Why a collectible cannot be granted to a player, if it cannot: the player
/// has no user row, or the user has no vault.
pub open spec fn vault_error(user_entity_id: Option<u64>, vault_found: bool) -> Option<Seq<char>> {
    if user_entity_id is None {
        Some("Unknown user"@)
    } else if !vault_found {
        Some("Unknown vault state"@)
    } else {
        None
    }
}

/// A collectible hub item grants that collectible; a premium item grants
/// the collectibles of its description, in order. A collectible can be
/// granted exactly when the player has a user row with a vault; without a
/// user row the grant is refused as an unknown user, and without a vault as
/// an unknown vault.
pub proof fn lemma_grant_rules(
    item_id: i32,
    premium_collectible_ids: Seq<i32>,
    user_entity_id: Option<u64>,
    vault_found: bool,
)
    ensures
        hub_item_collectibles(HubItemType::Collectible, item_id, Some(premium_collectible_ids)) == seq![item_id],
        hub_item_collectibles(HubItemType::Collectible, item_id, None) == seq![item_id],
        hub_item_collectibles(HubItemType::PremiumItem, item_id, Some(premium_collectible_ids)) == premium_collectible_ids,
        vault_error(user_entity_id, vault_found) is None <==> (user_entity_id is Some && vault_found),
        user_entity_id is None ==> vault_error(user_entity_id, vault_found) == Some("Unknown user"@),
        user_entity_id is Some && !vault_found ==> vault_error(user_entity_id, vault_found) == Some("Unknown vault state"@),
{
}

/// Grants one collectible `quantity` times, provided the player's user row
/// (`user_entity_id`) and vault (`vault_found`) exist.
pub fn grant_collectible(user_entity_id: Option<u64>, vault_found: bool, collectible_id: i32, quantity: u32) -> (res: Result<CollectibleGrant, String>)
    ensures
        match res {
            Ok(grant) => vault_error(user_entity_id, vault_found) is None
                && grant == (CollectibleGrant { collectible_id, count: quantity }),
            Err(e) => vault_error(user_entity_id, vault_found) == Some(e@),
        },
{
    if user_entity_id.is_none() {
        return Err("Unknown user".to_string());
    }
    if !vault_found {
        return Err("Unknown vault state".to_string());
    }
    Ok(CollectibleGrant { collectible_id, count: quantity })
}

/// Grants a hub item: a collectible is granted `quantity` times; a premium
/// item grants each of its collectibles `quantity` times. The player's user
/// row and vault are needed only when there is something to grant.
/// `premium_collectible_ids` are the collectibles of the premium item
/// `request.item_id`; `user_entity_id` is the user row of
/// `request.player_identity` and `vault_found` says whether that user has a
/// vault.
pub fn process_message_on_destination(
    request: &GrantHubItemMsg,
    premium_collectible_ids: Option<Vec<i32>>,
    user_entity_id: Option<u64>,
    vault_found: bool,
) -> (res: Result<Vec<CollectibleGrant>, String>)
    requires
        request.item_type != HubItemType::HexiteShards,
        request.item_type == HubItemType::PremiumItem ==> premium_collectible_ids is Some,
    ensures
        ({
            let ids = hub_item_collectibles(
                request.item_type,
                request.item_id,
                ids_view(premium_collectible_ids),
            );
            match res {
                Ok(grants) => {
                    &&& (ids.len() == 0 || vault_error(user_entity_id, vault_found) is None)
                    &&& grants@.len() == ids.len()
                    &&& forall|i: int| 0 <= i < ids.len() ==> #[trigger] grants@[i] == (CollectibleGrant {
                        collectible_id: ids[i],
                        count: request.quantity,
                    })
                },
                Err(e) => ids.len() > 0 && vault_error(user_entity_id, vault_found) == Some(e@),
            }
        }),
{
    let ghost spec_ids = hub_item_collectibles(
        request.item_type,
        request.item_id,
        ids_view(premium_collectible_ids),
    );
    let ids: Vec<i32> = match request.item_type {
        HubItemType::Collectible => vec![request.item_id],
        _ => premium_collectible_ids.unwrap(),
    };
    assert(ids@ =~= spec_ids);
    let mut grants: Vec<CollectibleGrant> = Vec::new();
    let mut i: usize = 0;
    while i < ids.len()
        invariant
            i <= ids@.len(),
            ids@ == spec_ids,
            spec_ids == hub_item_collectibles(request.item_type, request.item_id, ids_view(premium_collectible_ids)),
            grants@.len() == i,
            forall|j: int| 0 <= j < i ==> #[trigger] grants@[j] == (CollectibleGrant {
                collectible_id: ids@[j],
                count: request.quantity,
            }),
            i > 0 ==> vault_error(user_entity_id, vault_found) is None,
        decreases ids@.len() - i,
    {
        match grant_collectible(user_entity_id, vault_found, ids[i], request.quantity) {
            Ok(grant) => grants.push(grant),
            Err(e) => return Err(e),
        }
        i = i + 1;
    }
    Ok(grants)
}

} // verus!
