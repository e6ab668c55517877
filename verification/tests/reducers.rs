use inter_module::global::reducers::{
    complete_inter_module_message, on_inter_module_message_processed, process_inter_module_message,
    route_on_destination, route_on_sender, save_inter_module_message_error, validate_relay_identity, CounterWrite, GlobalRoute,
    InboundStep, MessageKind, SenderRoute,
};
use inter_module::rows::RowWrite;

#[test]
fn unauthorized_delivery_is_refused() {
    match process_inter_module_message(false, 2, 10, MessageKind::EmpireAddCurrency, None, None) {
        InboundStep::Refused(e) => assert_eq!(e, "Unauthorized"),
        other => panic!("unexpected {:?}", other),
    }
    assert_eq!(validate_relay_identity(false), Err("Unauthorized".to_string()));
    assert_eq!(validate_relay_identity(true), Ok(()));
}

#[test]
fn first_message_from_a_sender_creates_its_counter() {
    match process_inter_module_message(true, 2, 10, MessageKind::ClaimSetName, None, None) {
        InboundStep::Dispatch { counter, route } => {
            assert_eq!(counter, CounterWrite { module_id: 2, last_processed_message_id: 10, write: RowWrite::Insert });
            assert_eq!(route, GlobalRoute::Handle);
        }
        other => panic!("unexpected {:?}", other),
    }
}

#[test]
fn newer_message_moves_the_counter() {
    match process_inter_module_message(true, 2, 11, MessageKind::TableUpdate, Some(10), None) {
        InboundStep::Dispatch { counter, route } => {
            assert_eq!(counter, CounterWrite { module_id: 2, last_processed_message_id: 11, write: RowWrite::Update });
            assert_eq!(route, GlobalRoute::ApplyTableUpdate);
        }
        other => panic!("unexpected {:?}", other),
    }
}

#[test]
fn redelivered_message_is_not_processed_again() {
    match process_inter_module_message(true, 2, 10, MessageKind::ClaimSetName, Some(10), None) {
        InboundStep::AlreadyProcessed(r) => assert_eq!(r, Ok(())),
        other => panic!("unexpected {:?}", other),
    }
    match process_inter_module_message(true, 2, 9, MessageKind::ClaimSetName, Some(10), Some("boom".to_string())) {
        InboundStep::AlreadyProcessed(r) => assert_eq!(r, Err("boom".to_string())),
        other => panic!("unexpected {:?}", other),
    }
}

#[test]
fn counter_committed_then_same_message_is_a_duplicate() {
    let counter = match process_inter_module_message(true, 4, 50, MessageKind::EmpireCreate, Some(3), None) {
        InboundStep::Dispatch { counter, .. } => counter,
        other => panic!("unexpected {:?}", other),
    };
    match process_inter_module_message(true, 4, 50, MessageKind::EmpireCreate, Some(counter.last_processed_message_id), None) {
        InboundStep::AlreadyProcessed(r) => assert_eq!(r, Ok(())),
        other => panic!("unexpected {:?}", other),
    }
}

#[test]
fn routes_of_the_global_module() {
    assert_eq!(route_on_destination(MessageKind::TableUpdate), GlobalRoute::ApplyTableUpdate);
    for kind in [
        MessageKind::TransferPlayerRequest,
        MessageKind::PlayerCreateRequest,
        MessageKind::GrantHubItem,
        MessageKind::RestoreSkills,
        MessageKind::OnPlayerLeftEmpire,
    ] {
        assert_eq!(route_on_destination(kind), GlobalRoute::NotForGlobalModule);
    }
    for kind in [
        MessageKind::EmpireDonateItem,
        MessageKind::EmpireAddCurrency,
        MessageKind::ClaimSetName,
        MessageKind::NpcPlaceWatchtowers,
        MessageKind::UserUpdateRegionRequest,
    ] {
        assert_eq!(route_on_destination(kind), GlobalRoute::Handle);
    }
}

#[test]
fn failed_processing_records_its_error() {
    let c = complete_inter_module_message(3, 8, Err("nope".to_string()));
    assert_eq!(c.result, Err("nope".to_string()));
    let r = c.error_record.unwrap();
    assert_eq!((r.sender_module_id, r.message_id, r.error.as_str()), (3, 8, "nope"));
    let ok = complete_inter_module_message(3, 9, Ok(()));
    assert_eq!(ok.result, Ok(()));
    assert!(ok.error_record.is_none());
}

#[test]
fn only_the_server_records_errors() {
    assert!(save_inter_module_message_error(false, 1, 2, "e".to_string()).is_none());
    let r = save_inter_module_message_error(true, 1, 2, "e".to_string()).unwrap();
    assert_eq!((r.sender_module_id, r.message_id, r.error.as_str()), (1, 2, "e"));
}

#[test]
fn results_go_back_to_their_sender_handler() {
    assert_eq!(on_inter_module_message_processed(true, Some(MessageKind::PlayerCreateRequest)), Ok(SenderRoute::PlayerCreate));
    assert_eq!(on_inter_module_message_processed(true, Some(MessageKind::GrantHubItem)), Ok(SenderRoute::GrantHubItem));
    assert_eq!(on_inter_module_message_processed(true, Some(MessageKind::EmpireCreate)), Ok(SenderRoute::Nothing));
    assert_eq!(on_inter_module_message_processed(false, None), Err("Unauthorized".to_string()));
}

#[test]
fn sender_routes() {
    assert_eq!(route_on_sender(MessageKind::PlayerCreateRequest), SenderRoute::PlayerCreate);
    assert_eq!(route_on_sender(MessageKind::GrantHubItem), SenderRoute::GrantHubItem);
    assert_eq!(route_on_sender(MessageKind::TableUpdate), SenderRoute::Nothing);
}
