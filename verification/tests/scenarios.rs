use mediator::didcomm_handlers::handle_aries;
use mediator::didcomm_handlers::MediatorService;
use mediator::messages::coordinate_mediation::CoordinateMediation;
use mediator::messages::coordinate_mediation::KeylistQueryContent;
use mediator::messages::coordinate_mediation::KeylistUpdateContent;
use mediator::messages::coordinate_mediation::KeylistUpdateItem;
use mediator::messages::coordinate_mediation::KeylistUpdateItemAction;
use mediator::messages::coordinate_mediation::KeylistUpdateItemResult;
use mediator::messages::coordinate_mediation::MediateRequestContent;
use mediator::messages::pickup::AttachmentType;
use mediator::messages::pickup::DeliveryRequestContent;
use mediator::messages::pickup::Pickup;
use mediator::messages::pickup::StatusRequestContent;
use mediator::messages::AriesMessage;
use mediator::messages::Decorators;
use mediator::messages::ForwardContent;
use mediator::messages::MsgParts;
use mediator::messages::ReturnRoute;
use mediator::persistence::memory::MemoryPersistence;
use mediator::persistence::MediatorPersistence;

const CLIENT: &str = "CkA1";
const DID_KEY: &str = "did:key:z6MkpTHR8VNsBxYAAWHut2Geadd9jSwuBV8xRoAnwWsdvktH";
const BASE58_KEY: &str = "B12NYF8RrR3h41TDCTJojY59usg3mbtbjnFs7Eud1Y6u";

fn none() -> Decorators {
    Decorators { thread: None, transport: None }
}

fn mediator() -> MediatorService {
    MediatorService {
        signing_key: "mediator_verkey".to_string(),
        endpoint: "http://host/didcomm".to_string(),
        routing_keys: vec!["mediator_verkey".to_string()],
    }
}

fn send(store: &mut MemoryPersistence, sender: &str, message: AriesMessage) -> Option<AriesMessage> {
    handle_aries(store, &mediator(), sender, "{}", message)
}

fn mediate_request(id: &str) -> AriesMessage {
    AriesMessage::CoordinateMediation(CoordinateMediation::MediateRequest(MsgParts {
        id: id.to_string(),
        content: MediateRequestContent {},
        decorators: none(),
    }))
}

fn keylist_add(id: &str, key: &str) -> AriesMessage {
    AriesMessage::CoordinateMediation(CoordinateMediation::KeylistUpdate(MsgParts {
        id: id.to_string(),
        content: KeylistUpdateContent {
            updates: vec![KeylistUpdateItem {
                recipient_key: key.to_string(),
                action: KeylistUpdateItemAction::Add,
            }],
        },
        decorators: none(),
    }))
}

fn keylist_query(id: &str) -> AriesMessage {
    AriesMessage::CoordinateMediation(CoordinateMediation::KeylistQuery(MsgParts {
        id: id.to_string(),
        content: KeylistQueryContent { paginate: None },
        decorators: none(),
    }))
}

fn status_request(id: &str, recipient_key: Option<&str>) -> AriesMessage {
    AriesMessage::Pickup(Pickup::StatusRequest(MsgParts {
        id: id.to_string(),
        content: StatusRequestContent { recipient_key: recipient_key.map(|key| key.to_string()) },
        decorators: none(),
    }))
}

fn delivery_request(id: &str, limit: u32) -> AriesMessage {
    AriesMessage::Pickup(Pickup::DeliveryRequest(MsgParts {
        id: id.to_string(),
        content: DeliveryRequestContent { limit, recipient_key: None },
        decorators: none(),
    }))
}

fn forward(to: &str, msg: &[u8]) -> AriesMessage {
    AriesMessage::Routing(MsgParts {
        id: "f1".to_string(),
        content: ForwardContent { to: to.to_string(), msg: msg.to_vec() },
        decorators: none(),
    })
}

fn keys_listed(reply: Option<AriesMessage>) -> Vec<String> {
    match reply {
        Some(AriesMessage::CoordinateMediation(CoordinateMediation::Keylist(keylist))) => {
            assert!(keylist.content.pagination.is_none());
            keylist.content.keys.into_iter().map(|item| item.recipient_key).collect()
        }
        _ => panic!("not a keylist"),
    }
}

fn granted() -> MemoryPersistence {
    let mut store = MemoryPersistence::new();
    let reply = send(&mut store, CLIENT, mediate_request("u1"));
    assert!(matches!(
        reply,
        Some(AriesMessage::CoordinateMediation(CoordinateMediation::MediateGrant(_)))
    ));
    store
}

fn granted_with_key() -> MemoryPersistence {
    let mut store = granted();
    assert!(send(&mut store, CLIENT, keylist_add("u3", DID_KEY)).is_some());
    store
}

#[test]
fn scenario_grant() {
    let mut store = MemoryPersistence::new();
    match send(&mut store, CLIENT, mediate_request("u1")) {
        Some(AriesMessage::CoordinateMediation(CoordinateMediation::MediateGrant(grant))) => {
            assert_eq!(grant.id.len(), 36);
            assert_ne!(grant.id, "u1");
            assert_eq!(grant.content.endpoint, "http://host/didcomm");
            assert_eq!(grant.content.routing_keys, vec!["mediator_verkey".to_string()]);
        }
        _ => panic!("not a grant"),
    }
    assert_eq!(store.account_exists(CLIENT).unwrap(), true);
    assert_eq!(store.account_exists("mediator_verkey").unwrap(), false);
    assert_eq!(store.account_exists("").unwrap(), false);
}

#[test]
fn scenario_keylist_add_and_query() {
    let mut store = granted();
    match send(&mut store, CLIENT, keylist_add("u3", DID_KEY)) {
        Some(AriesMessage::CoordinateMediation(CoordinateMediation::KeylistUpdateResponse(response))) => {
            assert_eq!(response.decorators.thread.unwrap().thid, "u3");
            assert_eq!(response.content.updated.len(), 1);
            assert_eq!(response.content.updated[0].recipient_key, DID_KEY);
            assert!(matches!(response.content.updated[0].action, KeylistUpdateItemAction::Add));
            assert!(matches!(response.content.updated[0].result, KeylistUpdateItemResult::Success));
        }
        _ => panic!("not a keylist update response"),
    }
    assert_eq!(keys_listed(send(&mut store, CLIENT, keylist_query("u4"))), vec![BASE58_KEY.to_string()]);
}

#[test]
fn scenario_forward_and_pickup() {
    let mut store = granted_with_key();
    let payload: [u8; 17] = [0, 1, 2, 3, 4, 5, 6, 7, 8, 9, 10, 11, 12, 13, 14, 15, 255];
    assert!(send(&mut store, "third-party", forward(BASE58_KEY, &payload)).is_none());
    match send(&mut store, CLIENT, status_request("u5", None)) {
        Some(AriesMessage::Pickup(Pickup::Status(status))) => {
            assert_eq!(status.decorators.thread.unwrap().thid, "u5");
            assert_eq!(status.content.message_count, 1);
            assert_eq!(status.content.recipient_key, None);
        }
        _ => panic!("not a status"),
    }
    match send(&mut store, CLIENT, delivery_request("u6", 10)) {
        Some(AriesMessage::Pickup(Pickup::Delivery(delivery))) => {
            assert_eq!(delivery.decorators.thread.unwrap().thid, "u6");
            assert!(matches!(delivery.decorators.transport.unwrap().return_route, ReturnRoute::All));
            assert_eq!(delivery.content.attach.len(), 1);
            assert_eq!(delivery.content.attach[0].id, Some("0".to_string()));
            match &delivery.content.attach[0].data.content {
                AttachmentType::Base64(text) => assert_eq!(text, "AAECAwQFBgcICQoLDA0OD_8"),
                _ => panic!("not base64"),
            }
        }
        _ => panic!("not a delivery"),
    }
}

#[test]
fn scenario_empty_delivery_falls_back_to_status() {
    let mut store = granted_with_key();
    match send(&mut store, CLIENT, delivery_request("u7", 10)) {
        Some(AriesMessage::Pickup(Pickup::Status(status))) => {
            assert_eq!(status.content.message_count, 0);
            assert_eq!(status.content.recipient_key, None);
            assert_eq!(status.decorators.thread.unwrap().thid, "u7");
        }
        _ => panic!("not a status"),
    }
}

#[test]
fn scenario_double_add_is_rejected_per_item() {
    let mut store = granted_with_key();
    match send(&mut store, CLIENT, keylist_add("u3", DID_KEY)) {
        Some(AriesMessage::CoordinateMediation(CoordinateMediation::KeylistUpdateResponse(response))) => {
            assert_eq!(response.content.updated.len(), 1);
            assert_eq!(response.content.updated[0].recipient_key, DID_KEY);
            assert!(matches!(response.content.updated[0].result, KeylistUpdateItemResult::ServerError));
        }
        _ => panic!("not a keylist update response"),
    }
    assert_eq!(keys_listed(send(&mut store, CLIENT, keylist_query("u4"))), vec![BASE58_KEY.to_string()]);
}

#[test]
fn scenario_filtered_status() {
    let mut store = granted();
    assert!(send(&mut store, CLIENT, keylist_add("a1", "K1")).is_some());
    assert!(send(&mut store, CLIENT, keylist_add("a2", "K2")).is_some());
    for _ in 0..3 {
        assert!(send(&mut store, "third-party", forward("K1", b"for K1")).is_none());
    }
    for _ in 0..2 {
        assert!(send(&mut store, "third-party", forward("K2", b"for K2")).is_none());
    }
    match send(&mut store, CLIENT, status_request("u8", Some("K2"))) {
        Some(AriesMessage::Pickup(Pickup::Status(status))) => {
            assert_eq!(status.content.message_count, 2);
            assert_eq!(status.content.recipient_key, Some("K2".to_string()));
        }
        _ => panic!("not a status"),
    }
}

#[test]
fn replies_name_the_request_as_their_thread() {
    let mut store = granted_with_key();
    assert!(send(&mut store, "third-party", forward(BASE58_KEY, b"m")).is_none());
    match send(&mut store, CLIENT, keylist_add("thread-a", "K7")) {
        Some(AriesMessage::CoordinateMediation(CoordinateMediation::KeylistUpdateResponse(response))) => {
            assert_eq!(response.decorators.thread.unwrap().thid, "thread-a")
        }
        _ => panic!("not a keylist update response"),
    }
    match send(&mut store, CLIENT, status_request("thread-b", None)) {
        Some(AriesMessage::Pickup(Pickup::Status(status))) => {
            assert_eq!(status.decorators.thread.unwrap().thid, "thread-b")
        }
        _ => panic!("not a status"),
    }
    match send(&mut store, CLIENT, delivery_request("thread-c", 1)) {
        Some(AriesMessage::Pickup(Pickup::Delivery(delivery))) => {
            assert_eq!(delivery.decorators.thread.unwrap().thid, "thread-c")
        }
        _ => panic!("not a delivery"),
    }
}

#[test]
fn reply_ids_are_fresh() {
    let mut store = granted();
    let first = match send(&mut store, CLIENT, status_request("u1", None)) {
        Some(AriesMessage::Pickup(Pickup::Status(status))) => status.id,
        _ => panic!("not a status"),
    };
    let second = match send(&mut store, CLIENT, status_request("u1", None)) {
        Some(AriesMessage::Pickup(Pickup::Status(status))) => status.id,
        _ => panic!("not a status"),
    };
    assert_ne!(first, second);
    assert_eq!(first.len(), 36);
    assert_eq!(first.chars().nth(14), Some('4'));
}
