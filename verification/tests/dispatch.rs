use mediator::didcomm_handlers::copy_strings;
use mediator::didcomm_handlers::handle_aries;
use mediator::didcomm_handlers::handle_forward;
use mediator::didcomm_handlers::turned_away;
use mediator::didcomm_handlers::MediatorService;
use mediator::mediation::report::problem_report;
use mediator::messages::coordinate_mediation::CoordinateMediation;
use mediator::messages::coordinate_mediation::KeylistQueryContent;
use mediator::messages::coordinate_mediation::MediateRequestContent;
use mediator::messages::pickup::Pickup;
use mediator::messages::pickup::StatusRequestContent;
use mediator::messages::AriesMessage;
use mediator::messages::Decorators;
use mediator::messages::Forward;
use mediator::messages::ForwardContent;
use mediator::messages::MsgParts;
use mediator::messages::ProblemCode;
use mediator::messages::ProblemReportContent;
use mediator::persistence::memory::MemoryPersistence;
use mediator::persistence::MediatorPersistence;
use mediator::persistence::PersistenceError;

const DID_KEY: &str = "did:key:z6MkpTHR8VNsBxYAAWHut2Geadd9jSwuBV8xRoAnwWsdvktH";
const BASE58_KEY: &str = "B12NYF8RrR3h41TDCTJojY59usg3mbtbjnFs7Eud1Y6u";

fn plain() -> Decorators {
    Decorators { thread: None, transport: None }
}

fn service() -> MediatorService {
    MediatorService {
        signing_key: "mediator-verkey".to_string(),
        endpoint: "http://host/didcomm".to_string(),
        routing_keys: vec!["mediator-verkey".to_string()],
    }
}

fn forward(id: &str, to: &str, msg: &[u8]) -> Forward {
    MsgParts {
        id: id.to_string(),
        content: ForwardContent { to: to.to_string(), msg: msg.to_vec() },
        decorators: plain(),
    }
}

fn mediate_request(id: &str) -> AriesMessage {
    AriesMessage::CoordinateMediation(CoordinateMediation::MediateRequest(MsgParts {
        id: id.to_string(),
        content: MediateRequestContent {},
        decorators: plain(),
    }))
}

fn keylist_query(id: &str) -> AriesMessage {
    AriesMessage::CoordinateMediation(CoordinateMediation::KeylistQuery(MsgParts {
        id: id.to_string(),
        content: KeylistQueryContent { paginate: None },
        decorators: plain(),
    }))
}

fn status_request(id: &str) -> AriesMessage {
    AriesMessage::Pickup(Pickup::StatusRequest(MsgParts {
        id: id.to_string(),
        content: StatusRequestContent { recipient_key: None },
        decorators: plain(),
    }))
}

fn expect_problem(reply: Option<AriesMessage>, thid: Option<&str>) -> ProblemCode {
    match reply {
        Some(AriesMessage::ReportProblem(report)) => {
            assert_eq!(report.id.len(), 36);
            assert_eq!(report.decorators.thread.map(|thread| thread.thid).as_deref(), thid);
            assert!(report.decorators.transport.is_none());
            report.content.code
        }
        _ => panic!("not a problem report"),
    }
}

#[test]
fn strings_are_copied_in_order() {
    assert_eq!(
        copy_strings(&vec!["b".to_string(), "a".to_string()]),
        vec!["b".to_string(), "a".to_string()]
    );
    assert!(copy_strings(&Vec::new()).is_empty());
}

#[test]
fn grant_content_repeats_the_service() {
    let content = service().grant_content();
    assert_eq!(content.endpoint, "http://host/didcomm");
    assert_eq!(content.routing_keys, vec!["mediator-verkey".to_string()]);
}

#[test]
fn problem_report_carries_code_and_thread() {
    assert!(matches!(
        expect_problem(Some(problem_report(ProblemCode::UnknownAccount, Some(&"u1".to_string()))), Some("u1")),
        ProblemCode::UnknownAccount
    ));
    assert!(matches!(
        expect_problem(Some(problem_report(ProblemCode::UnknownMessage, None)), None),
        ProblemCode::UnknownMessage
    ));
}

#[test]
fn sender_is_turned_away_by_what_the_store_said() {
    let id = "u1".to_string();
    assert!(turned_away(Ok(true), &id).is_none());
    assert!(matches!(expect_problem(turned_away(Ok(false), &id), Some("u1")), ProblemCode::UnknownAccount));
    assert!(matches!(
        expect_problem(turned_away(Err(PersistenceError {}), &id), Some("u1")),
        ProblemCode::PersistenceFailure
    ));
}

#[test]
fn forward_is_queued_for_the_holder_of_the_key() {
    let mut store = MemoryPersistence::new();
    assert!(store.create_account("alice", "signing", "{}").is_ok());
    assert!(store.add_recipient("alice", BASE58_KEY).is_ok());
    assert!(handle_forward(&mut store, &forward("f1", BASE58_KEY, b"first")).is_none());
    assert!(handle_forward(&mut store, &forward("f2", DID_KEY, b"second")).is_none());
    assert_eq!(
        store.retrieve_pending_messages("alice", None, Some(BASE58_KEY)).unwrap(),
        vec![("0".to_string(), b"first".to_vec()), ("1".to_string(), b"second".to_vec())]
    );
}

#[test]
fn forward_to_an_unknown_key_is_reported() {
    let mut store = MemoryPersistence::new();
    assert!(store.create_account("alice", "signing", "{}").is_ok());
    let reply = handle_forward(&mut store, &forward("f1", "K9", b"lost"));
    assert!(matches!(expect_problem(reply, Some("f1")), ProblemCode::PersistenceFailure));
    assert_eq!(store.retrieve_pending_message_count("alice", None).unwrap(), 0);
}

#[test]
fn mediation_is_open_to_anybody() {
    let mut store = MemoryPersistence::new();
    let reply = handle_aries(&mut store, &service(), "alice", "{}", mediate_request("u1"));
    match reply {
        Some(AriesMessage::CoordinateMediation(CoordinateMediation::MediateGrant(grant))) => {
            assert_eq!(grant.content.endpoint, "http://host/didcomm");
            assert_eq!(grant.content.routing_keys, vec!["mediator-verkey".to_string()]);
        }
        _ => panic!("not a grant"),
    }
    assert!(store.create_account("alice", "mediator-verkey", "{}").is_ok());
    assert!(store.create_account("alice", "mediator-verkey", "{\"other\":true}").is_err());
}

#[test]
fn unknown_sender_is_turned_away() {
    let mut store = MemoryPersistence::new();
    let reply = handle_aries(&mut store, &service(), "mallory", "{}", keylist_query("u1"));
    assert!(matches!(expect_problem(reply, Some("u1")), ProblemCode::UnknownAccount));
    let reply = handle_aries(&mut store, &service(), "mallory", "{}", status_request("u2"));
    assert!(matches!(expect_problem(reply, Some("u2")), ProblemCode::UnknownAccount));
    assert_eq!(store.account_exists("mallory").unwrap(), false);
}

#[test]
fn known_sender_is_answered() {
    let mut store = MemoryPersistence::new();
    assert!(handle_aries(&mut store, &service(), "alice", "{}", mediate_request("u1")).is_some());
    let reply = handle_aries(&mut store, &service(), "alice", "{}", keylist_query("u2"));
    assert!(matches!(
        reply,
        Some(AriesMessage::CoordinateMediation(CoordinateMediation::Keylist(_)))
    ));
    let reply = handle_aries(&mut store, &service(), "alice", "{}", status_request("u3"));
    match reply {
        Some(AriesMessage::Pickup(Pickup::Status(status))) => {
            assert_eq!(status.content.message_count, 0);
            assert_eq!(status.decorators.thread.unwrap().thid, "u3");
        }
        _ => panic!("not a status"),
    }
}

#[test]
fn forward_needs_no_account() {
    let mut store = MemoryPersistence::new();
    assert!(store.create_account("alice", "signing", "{}").is_ok());
    assert!(store.add_recipient("alice", "K1").is_ok());
    let reply = handle_aries(
        &mut store,
        &service(),
        "stranger",
        "",
        AriesMessage::Routing(forward("f1", "K1", b"opaque")),
    );
    assert!(reply.is_none());
    assert_eq!(store.retrieve_pending_message_count("alice", Some("K1")).unwrap(), 1);
}

#[test]
fn unknown_message_is_reported() {
    let mut store = MemoryPersistence::new();
    let reply = handle_aries(&mut store, &service(), "alice", "{}", AriesMessage::Unknown);
    assert!(matches!(expect_problem(reply, None), ProblemCode::UnknownMessage));
}

#[test]
fn problem_report_from_a_client_is_not_acted_on() {
    let mut store = MemoryPersistence::new();
    let inbound = AriesMessage::ReportProblem(MsgParts {
        id: "p1".to_string(),
        content: ProblemReportContent { code: ProblemCode::UnknownMessage },
        decorators: plain(),
    });
    let reply = handle_aries(&mut store, &service(), "alice", "{}", inbound);
    assert!(matches!(expect_problem(reply, Some("p1")), ProblemCode::UnsupportedMessage));
}
