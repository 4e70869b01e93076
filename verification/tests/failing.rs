use mediator::didcomm_handlers::handle_aries;
use mediator::didcomm_handlers::MediatorService;
use mediator::mediation::coordination::handle_keylist_query;
use mediator::mediation::coordination::handle_keylist_update;
use mediator::mediation::coordination::handle_mediate_request;
use mediator::mediation::pickup::handle_pickup_authenticated;
use mediator::messages::coordinate_mediation::CoordinateMediation;
use mediator::messages::coordinate_mediation::KeylistQueryContent;
use mediator::messages::coordinate_mediation::KeylistUpdateContent;
use mediator::messages::coordinate_mediation::KeylistUpdateItem;
use mediator::messages::coordinate_mediation::KeylistUpdateItemAction;
use mediator::messages::coordinate_mediation::KeylistUpdateItemResult;
use mediator::messages::coordinate_mediation::MediateGrantContent;
use mediator::messages::pickup::DeliveryRequestContent;
use mediator::messages::pickup::MessagesReceivedContent;
use mediator::messages::pickup::Pickup;
use mediator::messages::pickup::StatusRequestContent;
use mediator::messages::AriesMessage;
use mediator::messages::Decorators;
use mediator::messages::MsgParts;
use mediator::messages::ProblemCode;
use mediator::persistence::MediatorPersistence;
use mediator::persistence::PersistenceError;
use mediator::persistence::StoreModel;

/// A store that is out of reach: every operation fails.
struct Unreachable;

impl MediatorPersistence for Unreachable {
    fn model(&self) -> StoreModel {
        unreachable!()
    }

    fn wf(&self) -> bool {
        unreachable!()
    }

    fn reliable(&self) -> bool {
        unreachable!()
    }

    fn account_exists(&self, _auth_pubkey: &str) -> Result<bool, PersistenceError> {
        Err(PersistenceError {})
    }

    fn create_account(
        &mut self,
        _auth_pubkey: &str,
        _our_signing_key: &str,
        _did_doc: &str,
    ) -> Result<(), PersistenceError> {
        Err(PersistenceError {})
    }

    fn add_recipient(&mut self, _auth_pubkey: &str, _recipient_key: &str) -> Result<(), PersistenceError> {
        Err(PersistenceError {})
    }

    fn remove_recipient(&mut self, _auth_pubkey: &str, _recipient_key: &str) -> Result<(), PersistenceError> {
        Err(PersistenceError {})
    }

    fn list_recipient_keys(&self, _auth_pubkey: &str) -> Result<Vec<String>, PersistenceError> {
        Err(PersistenceError {})
    }

    fn retrieve_pending_message_count(
        &self,
        _auth_pubkey: &str,
        _recipient_key: Option<&str>,
    ) -> Result<u64, PersistenceError> {
        Err(PersistenceError {})
    }

    fn retrieve_pending_messages(
        &self,
        _auth_pubkey: &str,
        _limit: Option<u32>,
        _recipient_key: Option<&str>,
    ) -> Result<Vec<(String, Vec<u8>)>, PersistenceError> {
        Err(PersistenceError {})
    }

    fn enqueue_message(&mut self, _recipient_key: &str, _message: &[u8]) -> Result<(), PersistenceError> {
        Err(PersistenceError {})
    }

    fn remove_messages(&mut self, _auth_pubkey: &str, _message_ids: &Vec<String>) -> Result<(), PersistenceError> {
        Err(PersistenceError {})
    }
}

fn undecorated() -> Decorators {
    Decorators { thread: None, transport: None }
}

fn code_of(reply: AriesMessage, thid: Option<&str>) -> ProblemCode {
    match reply {
        AriesMessage::ReportProblem(report) => {
            assert_eq!(report.decorators.thread.map(|thread| thread.thid).as_deref(), thid);
            report.content.code
        }
        _ => panic!("not a problem report"),
    }
}

#[test]
fn failing_store_denies_mediation() {
    let content = MediateGrantContent { endpoint: "e".to_string(), routing_keys: Vec::new() };
    let reply = handle_mediate_request(&mut Unreachable, "alice", "{}", "key", content);
    assert!(matches!(reply, CoordinateMediation::MediateDeny(_)));
}

#[test]
fn failing_store_fails_every_update_item() {
    let request = MsgParts {
        id: "u1".to_string(),
        content: KeylistUpdateContent {
            updates: vec![
                KeylistUpdateItem { recipient_key: "K1".to_string(), action: KeylistUpdateItemAction::Add },
                KeylistUpdateItem { recipient_key: "K2".to_string(), action: KeylistUpdateItemAction::Remove },
            ],
        },
        decorators: undecorated(),
    };
    match handle_keylist_update(&mut Unreachable, request, "alice") {
        CoordinateMediation::KeylistUpdateResponse(response) => {
            assert_eq!(response.decorators.thread.unwrap().thid, "u1");
            assert_eq!(response.content.updated.len(), 2);
            assert!(response
                .content
                .updated
                .iter()
                .all(|item| matches!(item.result, KeylistUpdateItemResult::ServerError)));
        }
        _ => panic!("not a keylist update response"),
    }
}

#[test]
fn failing_store_turns_a_query_into_a_problem_report() {
    let reply = handle_keylist_query(&Unreachable, KeylistQueryContent { paginate: None }, "alice");
    assert!(matches!(code_of(reply, None), ProblemCode::PersistenceFailure));
}

#[test]
fn failing_store_turns_pickup_into_problem_reports() {
    let status = Pickup::StatusRequest(MsgParts {
        id: "u1".to_string(),
        content: StatusRequestContent { recipient_key: None },
        decorators: undecorated(),
    });
    let reply = handle_pickup_authenticated(&mut Unreachable, status, "alice");
    assert!(matches!(code_of(reply, Some("u1")), ProblemCode::PersistenceFailure));

    let delivery = Pickup::DeliveryRequest(MsgParts {
        id: "u2".to_string(),
        content: DeliveryRequestContent { limit: 10, recipient_key: None },
        decorators: undecorated(),
    });
    let reply = handle_pickup_authenticated(&mut Unreachable, delivery, "alice");
    assert!(matches!(code_of(reply, Some("u2")), ProblemCode::PersistenceFailure));

    let received = Pickup::MessagesReceived(MsgParts {
        id: "u3".to_string(),
        content: MessagesReceivedContent { message_id_list: vec!["0".to_string()] },
        decorators: undecorated(),
    });
    let reply = handle_pickup_authenticated(&mut Unreachable, received, "alice");
    assert!(matches!(code_of(reply, Some("u3")), ProblemCode::PersistenceFailure));
}

#[test]
fn failing_store_turns_the_sender_away() {
    let service = MediatorService {
        signing_key: "k".to_string(),
        endpoint: "e".to_string(),
        routing_keys: Vec::new(),
    };
    let status = AriesMessage::Pickup(Pickup::StatusRequest(MsgParts {
        id: "u1".to_string(),
        content: StatusRequestContent { recipient_key: None },
        decorators: undecorated(),
    }));
    let reply = handle_aries(&mut Unreachable, &service, "alice", "{}", status);
    assert!(matches!(code_of(reply.unwrap(), Some("u1")), ProblemCode::PersistenceFailure));
}
