use vstd::prelude::*;
use crate::rows::RowWrite;

verus! {

/// The kinds of inter-module messages.
#[derive(Clone, Copy, Debug, PartialEq, Eq, Structural)]
pub enum MessageKind {
    TableUpdate,
    TransferPlayerRequest,
    TransferPlayerHousingRequest,
    PlayerCreateRequest,
    OnPlayerNameSetRequest,
    OnEmpireBuildingDeleted,
    OnPlayerJoinedEmpire,
    OnPlayerLeftEmpire,
    RegionDestroySiegeEngine,
    EmpireUpdateEmperorCrown,
    EmpireRemoveCrown,
    SignPlayerOut,
    AdminBroadcastMessage,
    PlayerSkipQueue,
    GrantHubItem,
    RecoverDeployable,
    OnDeployableRecovered,
    ReplaceIdentity,
    RestoreSkills,
    UserUpdateRegionRequest,
    ClaimCreateEmpireSettlementState,
    OnClaimMembersChanged,
    EmpireCreateBuilding,
    GlobalDeleteEmpireBuilding,
    DeleteEmpire,
    EmpireClaimJoin,
    EmpireResupplyNode,
    EmpireDonateItem,
    EmpireCreate,
    EmpireCollectHexiteCapsule,
    EmpireStartSiege,
    EmpireSiegeAddSupplies,
    EmpireAddCurrency,
    OnRegionPlayerCreated,
    EmpireQueueSupplies,
    ClaimSetName,
    NpcPlaceWatchtowers,
}

/// What the global module does with a message it receives.
#[derive(Clone, Copy, Debug, PartialEq, Eq, Structural)]
pub enum GlobalRoute {
    /// Apply the replicated table updates it carries.
    ApplyTableUpdate,
    /// Refuse it: it is meant for region modules only.
    NotForGlobalModule,
    /// Pass it to the handler of its kind.
    Handle,
}

/// What the sending module does with the result of a message it sent.
#[derive(Clone, Copy, Debug, PartialEq, Eq, Structural)]
pub enum SenderRoute {
    PlayerCreate,
    GrantHubItem,
    Nothing,
}

/// The last message id processed from a sender, to be written.
#[derive(Clone, Copy, Debug, PartialEq, Eq, Structural)]
pub struct CounterWrite {
    pub module_id: u8,
    pub last_processed_message_id: u64,
    pub write: RowWrite,
}

/// The error a message's processing ended with.
#[derive(Clone, Debug)]
pub struct InterModuleMessageErrors {
    pub sender_module_id: u8,
    pub message_id: u64,
    pub error: String,
}

/// The first step of processing an inbound message.
#[derive(Debug)]
pub enum InboundStep {
    /// The delivery is refused with this error; nothing is written.
    Refused(String),
    /// The message was processed before: return this result again, without
    /// writing anything.
    AlreadyProcessed(Result<(), String>),
    /// Write the sender's counter and route the message.
    Dispatch { counter: CounterWrite, route: GlobalRoute },
}

/// The last step of processing an inbound message.
#[derive(Debug)]
pub struct Completion {
    pub result: Result<(), String>,
    /// The error to record, by a separate transaction, when processing failed.
    pub error_record: Option<InterModuleMessageErrors>,
}

/// The message kinds that only region modules receive.
pub open spec fn region_only(kind: MessageKind) -> bool {
    match kind {
        MessageKind::TransferPlayerRequest
        | MessageKind::TransferPlayerHousingRequest
        | MessageKind::PlayerCreateRequest
        | MessageKind::OnPlayerNameSetRequest
        | MessageKind::OnEmpireBuildingDeleted
        | MessageKind::OnPlayerJoinedEmpire
        | MessageKind::OnPlayerLeftEmpire
        | MessageKind::RegionDestroySiegeEngine
        | MessageKind::EmpireUpdateEmperorCrown
        | MessageKind::EmpireRemoveCrown
        | MessageKind::SignPlayerOut
        | MessageKind::AdminBroadcastMessage
        | MessageKind::PlayerSkipQueue
        | MessageKind::GrantHubItem
        | MessageKind::RecoverDeployable
        | MessageKind::OnDeployableRecovered
        | MessageKind::ReplaceIdentity
        | MessageKind::RestoreSkills => true,
        _ => false,
    }
}

/// Where the global module routes a message of `kind`.
pub open spec fn global_route(kind: MessageKind) -> GlobalRoute {
    if kind == MessageKind::TableUpdate {
        GlobalRoute::ApplyTableUpdate
    } else if region_only(kind) {
        GlobalRoute::NotForGlobalModule
    } else {
        GlobalRoute::Handle
    }
}

/// A message was already processed when its sender's counter has reached
/// its id.
pub open spec fn already_processed(last_processed: Option<u64>, message_id: u64) -> bool {
    last_processed matches Some(last) && last >= message_id
}

/// Routes a message received by the global module.
pub fn route_on_destination(kind: MessageKind) -> (route: GlobalRoute)
    ensures
        route == global_route(kind),
        route == GlobalRoute::ApplyTableUpdate <==> kind == MessageKind::TableUpdate,
        route == GlobalRoute::Handle <==> (
            kind == MessageKind::UserUpdateRegionRequest
            || kind == MessageKind::ClaimCreateEmpireSettlementState
            || kind == MessageKind::OnClaimMembersChanged
            || kind == MessageKind::EmpireCreateBuilding
            || kind == MessageKind::GlobalDeleteEmpireBuilding
            || kind == MessageKind::DeleteEmpire
            || kind == MessageKind::EmpireClaimJoin
            || kind == MessageKind::EmpireResupplyNode
            || kind == MessageKind::EmpireDonateItem
            || kind == MessageKind::EmpireCreate
            || kind == MessageKind::EmpireCollectHexiteCapsule
            || kind == MessageKind::EmpireStartSiege
            || kind == MessageKind::EmpireSiegeAddSupplies
            || kind == MessageKind::EmpireAddCurrency
            || kind == MessageKind::OnRegionPlayerCreated
            || kind == MessageKind::EmpireQueueSupplies
            || kind == MessageKind::ClaimSetName
            || kind == MessageKind::NpcPlaceWatchtowers
        ),
        route == GlobalRoute::NotForGlobalModule <==> (
            kind == MessageKind::TransferPlayerRequest
            || kind == MessageKind::TransferPlayerHousingRequest
            || kind == MessageKind::PlayerCreateRequest
            || kind == MessageKind::OnPlayerNameSetRequest
            || kind == MessageKind::OnEmpireBuildingDeleted
            || kind == MessageKind::OnPlayerJoinedEmpire
            || kind == MessageKind::OnPlayerLeftEmpire
            || kind == MessageKind::RegionDestroySiegeEngine
            || kind == MessageKind::EmpireUpdateEmperorCrown
            || kind == MessageKind::EmpireRemoveCrown
            || kind == MessageKind::SignPlayerOut
            || kind == MessageKind::AdminBroadcastMessage
            || kind == MessageKind::PlayerSkipQueue
            || kind == MessageKind::GrantHubItem
            || kind == MessageKind::RecoverDeployable
            || kind == MessageKind::OnDeployableRecovered
            || kind == MessageKind::ReplaceIdentity
            || kind == MessageKind::RestoreSkills
        ),
{
    match kind {
        MessageKind::TableUpdate => GlobalRoute::ApplyTableUpdate,
        MessageKind::TransferPlayerRequest
        | MessageKind::TransferPlayerHousingRequest
        | MessageKind::PlayerCreateRequest
        | MessageKind::OnPlayerNameSetRequest
        | MessageKind::OnEmpireBuildingDeleted
        | MessageKind::OnPlayerJoinedEmpire
        | MessageKind::OnPlayerLeftEmpire
        | MessageKind::RegionDestroySiegeEngine
        | MessageKind::EmpireUpdateEmperorCrown
        | MessageKind::EmpireRemoveCrown
        | MessageKind::SignPlayerOut
        | MessageKind::AdminBroadcastMessage
        | MessageKind::PlayerSkipQueue
        | MessageKind::GrantHubItem
        | MessageKind::RecoverDeployable
        | MessageKind::OnDeployableRecovered
        | MessageKind::ReplaceIdentity
        | MessageKind::RestoreSkills => GlobalRoute::NotForGlobalModule,
        _ => GlobalRoute::Handle,
    }
}

/// Only the relay, which holds the admin role, may deliver inter-module
/// messages and their results.
pub fn validate_relay_identity(sender_is_admin: bool) -> (res: Result<(), String>)
    ensures
        match res {
            Ok(()) => sender_is_admin,
            Err(e) => !sender_is_admin && e@ == "Unauthorized"@,
        },
{
    if !sender_is_admin {
        return Err("Unauthorized".to_string());
    }
    Ok(())
}

/// The first step of processing message `message_id` from module `sender`.
/// An unauthorized delivery is refused. A message whose id the sender's
/// counter (`last_processed`) has reached is not processed again: the error
/// recorded for it (`recorded_error`) is returned, or success. Otherwise
/// the counter moves to the message's id, created if the sender has none,
/// and the message is routed by its kind.
pub fn process_inter_module_message(
    sender_is_admin: bool,
    sender: u8,
    message_id: u64,
    kind: MessageKind,
    last_processed: Option<u64>,
    recorded_error: Option<String>,
) -> (step: InboundStep)
    ensures
        !sender_is_admin ==> (step matches InboundStep::Refused(e) && e@ == "Unauthorized"@),
        sender_is_admin && already_processed(last_processed, message_id) ==> step == InboundStep::AlreadyProcessed(
            match recorded_error {
                Some(e) => Err(e),
                None => Ok(()),
            },
        ),
        sender_is_admin && !already_processed(last_processed, message_id) ==> step == (InboundStep::Dispatch {
            counter: CounterWrite {
                module_id: sender,
                last_processed_message_id: message_id,
                write: if last_processed is Some { RowWrite::Update } else { RowWrite::Insert },
            },
            route: global_route(kind),
        }),
{
    if let Err(e) = validate_relay_identity(sender_is_admin) {
        return InboundStep::Refused(e);
    }
    let write = match last_processed {
        Some(last) => {
            if last >= message_id {
                return InboundStep::AlreadyProcessed(
                    match recorded_error {
                        Some(e) => Err(e),
                        None => Ok(()),
                    },
                );
            }
            RowWrite::Update
        },
        None => RowWrite::Insert,
    };
    let counter = CounterWrite { module_id: sender, last_processed_message_id: message_id, write };
    InboundStep::Dispatch { counter, route: route_on_destination(kind) }
}

/// The last step of processing an inbound message: its result is returned,
/// and an error is recorded for the message when processing failed.
pub fn complete_inter_module_message(sender: u8, message_id: u64, result: Result<(), String>) -> (c: Completion)
    ensures
        c.result == result,
        match result {
            Ok(()) => c.error_record is None,
            Err(e) => (c.error_record matches Some(r)
                && r.sender_module_id == sender && r.message_id == message_id && r.error == e),
        },
{
    let error_record = match &result {
        Ok(()) => None,
        Err(e) => Some(InterModuleMessageErrors { sender_module_id: sender, message_id, error: e.clone() }),
    };
    Completion { result, error_record }
}

/// The error row to record for a message, when the caller is the server
/// itself; other callers record nothing.
pub fn save_inter_module_message_error(caller_is_server: bool, sender: u8, message_id: u64, error: String) -> (res: Option<InterModuleMessageErrors>)
    ensures
        match res {
            Some(r) => caller_is_server && r.sender_module_id == sender && r.message_id == message_id && r.error == error,
            None => !caller_is_server,
        },
{
    if !caller_is_server {
        return None;
    }
    Some(InterModuleMessageErrors { sender_module_id: sender, message_id, error })
}

/// Where the sending module passes the result of a message it sent.
pub open spec fn sender_route(kind: MessageKind) -> SenderRoute {
    match kind {
        MessageKind::PlayerCreateRequest => SenderRoute::PlayerCreate,
        MessageKind::GrantHubItem => SenderRoute::GrantHubItem,
        _ => SenderRoute::Nothing,
    }
}

/// Routes the result of a message this module sent.
pub fn route_on_sender(kind: MessageKind) -> (route: SenderRoute)
    ensures
        route == sender_route(kind),
        route == SenderRoute::PlayerCreate <==> kind == MessageKind::PlayerCreateRequest,
        route == SenderRoute::GrantHubItem <==> kind == MessageKind::GrantHubItem,
        route == SenderRoute::Nothing <==> (kind != MessageKind::PlayerCreateRequest && kind != MessageKind::GrantHubItem),
{
    match kind {
        MessageKind::PlayerCreateRequest => SenderRoute::PlayerCreate,
        MessageKind::GrantHubItem => SenderRoute::GrantHubItem,
        _ => SenderRoute::Nothing,
    }
}

/// Receives the result of a message this module sent: an unauthorized
/// delivery is refused; otherwise the result goes to the handler of the
/// message's kind, if it has one, and the message is then deleted.
/// `message_kind` is the kind of the sent message, looked up only for an
/// authorized delivery; the message must exist then.
pub fn on_inter_module_message_processed(sender_is_admin: bool, message_kind: Option<MessageKind>) -> (res: Result<SenderRoute, String>)
    requires
        sender_is_admin ==> message_kind is Some,
    ensures
        match res {
            Ok(route) => {
                &&& sender_is_admin
                &&& route == sender_route(message_kind->0)
                &&& (route == SenderRoute::PlayerCreate <==> message_kind->0 == MessageKind::PlayerCreateRequest)
                &&& (route == SenderRoute::GrantHubItem <==> message_kind->0 == MessageKind::GrantHubItem)
            },
            Err(e) => !sender_is_admin && e@ == "Unauthorized"@,
        },
{
    validate_relay_identity(sender_is_admin)?;
    Ok(route_on_sender(message_kind.unwrap()))
}

/// The global module applies table updates, passes each of the kinds that
/// have a global handler to that handler, and refuses exactly the kinds that
/// only region modules receive.
pub proof fn lemma_global_routes(kind: MessageKind)
    ensures
        global_route(kind) == GlobalRoute::ApplyTableUpdate <==> kind == MessageKind::TableUpdate,
        global_route(kind) == GlobalRoute::Handle <==> (
            kind == MessageKind::UserUpdateRegionRequest
            || kind == MessageKind::ClaimCreateEmpireSettlementState
            || kind == MessageKind::OnClaimMembersChanged
            || kind == MessageKind::EmpireCreateBuilding
            || kind == MessageKind::GlobalDeleteEmpireBuilding
            || kind == MessageKind::DeleteEmpire
            || kind == MessageKind::EmpireClaimJoin
            || kind == MessageKind::EmpireResupplyNode
            || kind == MessageKind::EmpireDonateItem
            || kind == MessageKind::EmpireCreate
            || kind == MessageKind::EmpireCollectHexiteCapsule
            || kind == MessageKind::EmpireStartSiege
            || kind == MessageKind::EmpireSiegeAddSupplies
            || kind == MessageKind::EmpireAddCurrency
            || kind == MessageKind::OnRegionPlayerCreated
            || kind == MessageKind::EmpireQueueSupplies
            || kind == MessageKind::ClaimSetName
            || kind == MessageKind::NpcPlaceWatchtowers
        ),
        global_route(kind) == GlobalRoute::NotForGlobalModule <==> (
            kind == MessageKind::TransferPlayerRequest
            || kind == MessageKind::TransferPlayerHousingRequest
            || kind == MessageKind::PlayerCreateRequest
            || kind == MessageKind::OnPlayerNameSetRequest
            || kind == MessageKind::OnEmpireBuildingDeleted
            || kind == MessageKind::OnPlayerJoinedEmpire
            || kind == MessageKind::OnPlayerLeftEmpire
            || kind == MessageKind::RegionDestroySiegeEngine
            || kind == MessageKind::EmpireUpdateEmperorCrown
            || kind == MessageKind::EmpireRemoveCrown
            || kind == MessageKind::SignPlayerOut
            || kind == MessageKind::AdminBroadcastMessage
            || kind == MessageKind::PlayerSkipQueue
            || kind == MessageKind::GrantHubItem
            || kind == MessageKind::RecoverDeployable
            || kind == MessageKind::OnDeployableRecovered
            || kind == MessageKind::ReplaceIdentity
            || kind == MessageKind::RestoreSkills
        ),
{
}

/// Only the results of player creation and of hub item grants go back to a
/// handler on the sender: to the player-creation handler and the hub-item
/// handler respectively.
pub proof fn lemma_sender_routes(kind: MessageKind)
    ensures
        sender_route(kind) == SenderRoute::PlayerCreate <==> kind == MessageKind::PlayerCreateRequest,
        sender_route(kind) == SenderRoute::GrantHubItem <==> kind == MessageKind::GrantHubItem,
        sender_route(kind) == SenderRoute::Nothing <==> (kind != MessageKind::PlayerCreateRequest && kind != MessageKind::GrantHubItem),
{
}

/// The counters of processed messages, by sender, after a counter write.
pub open spec fn apply_counter(ledger: Map<u8, u64>, counter: CounterWrite) -> Map<u8, u64> {
    ledger.insert(counter.module_id, counter.last_processed_message_id)
}

/// The counter a ledger holds for a sender.
pub open spec fn counter_of(ledger: Map<u8, u64>, sender: u8) -> Option<u64> {
    if ledger.dom().contains(sender) {
        Some(ledger[sender])
    } else {
        None
    }
}

/// Messages are processed at most once: once the counter write of an
/// admitted message commits, a redelivery of that message, or of any
/// earlier one, from the same sender is not processed again; the sender's
/// counter has moved forward; and no other sender's counter changed.
pub proof fn lemma_committed_message_not_reprocessed(
    ledger: Map<u8, u64>,
    sender: u8,
    message_id: u64,
    kind: MessageKind,
    counter: CounterWrite,
    redelivered_id: u64,
)
    requires
        !already_processed(counter_of(ledger, sender), message_id),
        counter == (CounterWrite {
            module_id: sender,
            last_processed_message_id: message_id,
            write: if counter_of(ledger, sender) is Some { RowWrite::Update } else { RowWrite::Insert },
        }),
        redelivered_id <= message_id,
    ensures
        already_processed(counter_of(apply_counter(ledger, counter), sender), redelivered_id),
        counter_of(ledger, sender) matches Some(last) ==> last < counter_of(apply_counter(ledger, counter), sender)->0,
        forall|other: u8| other != sender ==> counter_of(apply_counter(ledger, counter), other) == counter_of(ledger, other),
{
}

/// A message newer than everything processed from its sender is admitted.
pub proof fn lemma_newer_message_admitted(ledger: Map<u8, u64>, sender: u8, message_id: u64)
    requires
        counter_of(ledger, sender) matches Some(last) ==> last < message_id,
    ensures
        !already_processed(counter_of(ledger, sender), message_id),
{
}

} // verus!
