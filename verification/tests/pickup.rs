use mediator::mediation::pickup::attachment;
use mediator::mediation::pickup::attachments;
use mediator::mediation::pickup::copy_of;
use mediator::mediation::pickup::failure_report;
use mediator::mediation::pickup::handle_pickup_authenticated;
use mediator::mediation::pickup::handle_pickup_default_status;
use mediator::mediation::pickup::handle_pickup_delivery_req;
use mediator::mediation::pickup::handle_pickup_messages_received;
use mediator::mediation::pickup::handle_pickup_status_req;
use mediator::mediation::pickup::lend;
use mediator::mediation::pickup::report_status;
use mediator::mediation::pickup::status_message;
use mediator::mediation::pickup::store_filter;
use mediator::messages::pickup::Attachment;
use mediator::messages::pickup::AttachmentType;
use mediator::messages::pickup::DeliveryContent;
use mediator::messages::pickup::DeliveryRequest;
use mediator::messages::pickup::DeliveryRequestContent;
use mediator::messages::pickup::LiveDeliveryChangeContent;
use mediator::messages::pickup::MessagesReceived;
use mediator::messages::pickup::MessagesReceivedContent;
use mediator::messages::pickup::Pickup;
use mediator::messages::pickup::Status;
use mediator::messages::pickup::StatusContent;
use mediator::messages::pickup::StatusRequest;
use mediator::messages::pickup::StatusRequestContent;
use mediator::messages::AriesMessage;
use mediator::messages::Decorators;
use mediator::messages::MsgParts;
use mediator::messages::ProblemCode;
use mediator::messages::ReturnRoute;
use mediator::persistence::memory::MemoryPersistence;
use mediator::persistence::MediatorPersistence;

const DID_KEY: &str = "did:key:z6MkpTHR8VNsBxYAAWHut2Geadd9jSwuBV8xRoAnwWsdvktH";
const BASE58_KEY: &str = "B12NYF8RrR3h41TDCTJojY59usg3mbtbjnFs7Eud1Y6u";

fn looks_like_uuid_v4(text: &str) -> bool {
    let chars: Vec<char> = text.chars().collect();
    chars.len() == 36
        && chars.iter().enumerate().all(|(i, c)| match i {
            8 | 13 | 18 | 23 => *c == '-',
            _ => matches!(c, '0'..='9' | 'a'..='f'),
        })
        && chars[14] == '4'
        && matches!(chars[19], '8' | '9' | 'a' | 'b')
}

fn bare() -> Decorators {
    Decorators { thread: None, transport: None }
}

fn status_request(id: &str, recipient_key: Option<&str>) -> StatusRequest {
    MsgParts {
        id: id.to_string(),
        content: StatusRequestContent { recipient_key: recipient_key.map(|key| key.to_string()) },
        decorators: bare(),
    }
}

fn delivery_request(id: &str, limit: u32, recipient_key: Option<&str>) -> DeliveryRequest {
    MsgParts {
        id: id.to_string(),
        content: DeliveryRequestContent { limit, recipient_key: recipient_key.map(|key| key.to_string()) },
        decorators: bare(),
    }
}

fn received(id: &str, ids: &[&str]) -> MessagesReceived {
    MsgParts {
        id: id.to_string(),
        content: MessagesReceivedContent { message_id_list: ids.iter().map(|id| id.to_string()).collect() },
        decorators: bare(),
    }
}

/// Account `alice` with three messages for `K1` and two for `K2`.
fn five_pending() -> MemoryPersistence {
    let mut store = MemoryPersistence::new();
    assert!(store.create_account("alice", "signing", "{}").is_ok());
    assert!(store.add_recipient("alice", "K1").is_ok());
    assert!(store.add_recipient("alice", "K2").is_ok());
    for (key, payload) in [("K1", "a"), ("K2", "b"), ("K1", "c"), ("K1", "d"), ("K2", "e")] {
        assert!(store.enqueue_message(key, payload.as_bytes()).is_ok());
    }
    store
}

fn expect_status(reply: AriesMessage, count: u64, recipient_key: Option<&str>, thid: &str) {
    match reply {
        AriesMessage::Pickup(Pickup::Status(status)) => {
            assert!(looks_like_uuid_v4(&status.id));
            assert_eq!(status.content.message_count, count);
            assert_eq!(status.content.recipient_key.as_deref(), recipient_key);
            assert_eq!(status.decorators.thread.unwrap().thid, thid);
            assert!(matches!(status.decorators.transport.unwrap().return_route, ReturnRoute::All));
        }
        _ => panic!("not a status"),
    }
}

fn expect_delivery(reply: AriesMessage, messages: &[(&str, &str)], recipient_key: Option<&str>, thid: &str) {
    match reply {
        AriesMessage::Pickup(Pickup::Delivery(delivery)) => {
            assert!(looks_like_uuid_v4(&delivery.id));
            assert_eq!(delivery.content.recipient_key.as_deref(), recipient_key);
            assert_eq!(delivery.decorators.thread.unwrap().thid, thid);
            assert!(matches!(delivery.decorators.transport.unwrap().return_route, ReturnRoute::All));
            let attached: Vec<(String, String)> = delivery
                .content
                .attach
                .into_iter()
                .map(|attachment: Attachment| match attachment.data.content {
                    AttachmentType::Base64(text) => (attachment.id.unwrap(), text),
                    _ => panic!("not base64"),
                })
                .collect();
            let expected: Vec<(String, String)> =
                messages.iter().map(|(id, text)| (id.to_string(), text.to_string())).collect();
            assert_eq!(attached, expected);
        }
        _ => panic!("not a delivery"),
    }
}

#[test]
fn store_filter_normalizes_the_key() {
    assert_eq!(store_filter(&None), None);
    assert_eq!(store_filter(&Some("K1".to_string())), Some("K1".to_string()));
    assert_eq!(store_filter(&Some(DID_KEY.to_string())), Some(BASE58_KEY.to_string()));
}

#[test]
fn optional_text_is_lent_and_copied() {
    assert_eq!(lend(&Some("K1".to_string())), Some("K1"));
    assert_eq!(lend(&None), None);
    assert_eq!(copy_of(&Some("K1".to_string())), Some("K1".to_string()));
    assert_eq!(copy_of(&None), None);
}

#[test]
fn failure_report_names_the_message() {
    match failure_report(&"u9".to_string()) {
        AriesMessage::ReportProblem(report) => {
            assert!(looks_like_uuid_v4(&report.id));
            assert!(matches!(report.content.code, ProblemCode::PersistenceFailure));
            assert_eq!(report.decorators.thread.unwrap().thid, "u9");
            assert!(report.decorators.transport.is_none());
        }
        _ => panic!("not a problem report"),
    }
}

#[test]
fn status_message_holds_what_it_is_given() {
    match status_message(4, Some("K".to_string()), &"u1".to_string(), "id-1".to_string()) {
        AriesMessage::Pickup(Pickup::Status(status)) => {
            assert_eq!(status.id, "id-1");
            assert_eq!(status.content.message_count, 4);
            assert_eq!(status.content.recipient_key, Some("K".to_string()));
            assert_eq!(status.decorators.thread.unwrap().thid, "u1");
            assert!(matches!(status.decorators.transport.unwrap().return_route, ReturnRoute::All));
        }
        _ => panic!("not a status"),
    }
}

#[test]
fn status_counts_all_or_one_key() {
    let store = five_pending();
    expect_status(handle_pickup_status_req(&status_request("u5", None), &store, "alice"), 5, None, "u5");
    expect_status(
        handle_pickup_status_req(&status_request("u6", Some("K2")), &store, "alice"),
        2,
        Some("K2"),
        "u6",
    );
    expect_status(
        handle_pickup_status_req(&status_request("u7", Some("K9")), &store, "alice"),
        0,
        Some("K9"),
        "u7",
    );
    expect_status(handle_pickup_status_req(&status_request("u8", None), &store, "bob"), 0, None, "u8");
}

#[test]
fn status_filter_is_normalized_and_echoed_as_it_came() {
    let mut store = MemoryPersistence::new();
    assert!(store.create_account("alice", "signing", "{}").is_ok());
    assert!(store.add_recipient("alice", BASE58_KEY).is_ok());
    assert!(store.enqueue_message(BASE58_KEY, b"m").is_ok());
    expect_status(
        handle_pickup_status_req(&status_request("u1", Some(DID_KEY)), &store, "alice"),
        1,
        Some(DID_KEY),
        "u1",
    );
    expect_status(report_status(&store, "alice", &Some(DID_KEY.to_string()), &"u2".to_string()), 1, Some(DID_KEY), "u2");
}

#[test]
fn default_status_counts_everything() {
    let store = five_pending();
    expect_status(handle_pickup_default_status(&store, "alice", &"u1".to_string()), 5, None, "u1");
}

#[test]
fn attachments_carry_base64url_payloads() {
    let attached = attachments(&vec![
        ("7".to_string(), b"Hello, world!".to_vec()),
        ("8".to_string(), vec![0xfb, 0xff]),
        ("9".to_string(), Vec::new()),
    ]);
    let texts: Vec<(Option<String>, String)> = attached
        .into_iter()
        .map(|attachment| match attachment.data.content {
            AttachmentType::Base64(text) => (attachment.id, text),
            _ => panic!("not base64"),
        })
        .collect();
    assert_eq!(
        texts,
        vec![
            (Some("7".to_string()), "SGVsbG8sIHdvcmxkIQ".to_string()),
            (Some("8".to_string()), "-_8".to_string()),
            (Some("9".to_string()), "".to_string()),
        ]
    );
}

#[test]
fn delivery_hands_out_the_oldest_first() {
    let store = five_pending();
    expect_delivery(
        handle_pickup_delivery_req(&delivery_request("u6", 10, None), &store, "alice"),
        &[("0", "YQ"), ("1", "Yg"), ("2", "Yw"), ("3", "ZA"), ("4", "ZQ")],
        None,
        "u6",
    );
    expect_delivery(
        handle_pickup_delivery_req(&delivery_request("u7", 2, None), &store, "alice"),
        &[("0", "YQ"), ("1", "Yg")],
        None,
        "u7",
    );
    expect_delivery(
        handle_pickup_delivery_req(&delivery_request("u8", 2, Some("K1")), &store, "alice"),
        &[("0", "YQ"), ("2", "Yw")],
        Some("K1"),
        "u8",
    );
    assert_eq!(store.retrieve_pending_message_count("alice", None).unwrap(), 5);
}

#[test]
fn delivery_of_nothing_is_the_status_of_everything() {
    let store = five_pending();
    expect_status(
        handle_pickup_delivery_req(&delivery_request("u1", 0, None), &store, "alice"),
        5,
        None,
        "u1",
    );
    expect_status(
        handle_pickup_delivery_req(&delivery_request("u2", 10, Some("K9")), &store, "alice"),
        5,
        None,
        "u2",
    );
    expect_status(
        handle_pickup_delivery_req(&delivery_request("u3", 10, None), &store, "bob"),
        0,
        None,
        "u3",
    );
}

#[test]
fn acknowledgement_removes_and_reports_what_is_left() {
    let mut store = five_pending();
    let reply = handle_pickup_messages_received(&received("u1", &["0", "1", "nothing"]), &mut store, "alice");
    expect_status(reply, 3, None, "u1");
    expect_delivery(
        handle_pickup_delivery_req(&delivery_request("u2", 10, None), &store, "alice"),
        &[("2", "Yw"), ("3", "ZA"), ("4", "ZQ")],
        None,
        "u2",
    );
    let reply = handle_pickup_messages_received(&received("u3", &["2"]), &mut store, "bob");
    expect_status(reply, 0, None, "u3");
    assert_eq!(store.retrieve_pending_message_count("alice", None).unwrap(), 3);
}

#[test]
fn authenticated_handler_routes_requests() {
    let mut store = five_pending();
    expect_status(
        handle_pickup_authenticated(&mut store, Pickup::StatusRequest(status_request("u1", Some("K1"))), "alice"),
        3,
        Some("K1"),
        "u1",
    );
    expect_delivery(
        handle_pickup_authenticated(&mut store, Pickup::DeliveryRequest(delivery_request("u2", 1, None)), "alice"),
        &[("0", "YQ")],
        None,
        "u2",
    );
    expect_status(
        handle_pickup_authenticated(&mut store, Pickup::MessagesReceived(received("u3", &["0"])), "alice"),
        4,
        None,
        "u3",
    );
}

#[test]
fn authenticated_handler_answers_the_rest_with_status() {
    let mut store = five_pending();
    let status: Status = MsgParts {
        id: "s1".to_string(),
        content: StatusContent { recipient_key: Some("K1".to_string()), message_count: 99 },
        decorators: bare(),
    };
    expect_status(handle_pickup_authenticated(&mut store, Pickup::Status(status), "alice"), 5, None, "s1");
    let delivery = MsgParts {
        id: "d1".to_string(),
        content: DeliveryContent { recipient_key: None, attach: Vec::new() },
        decorators: bare(),
    };
    expect_status(handle_pickup_authenticated(&mut store, Pickup::Delivery(delivery), "alice"), 5, None, "d1");
    let change = MsgParts {
        id: "l1".to_string(),
        content: LiveDeliveryChangeContent { live_delivery: true },
        decorators: bare(),
    };
    expect_status(
        handle_pickup_authenticated(&mut store, Pickup::LiveDeliveryChange(change), "alice"),
        5,
        None,
        "l1",
    );
    assert_eq!(store.retrieve_pending_message_count("alice", None).unwrap(), 5);
}

#[test]
fn attachment_holds_id_and_text() {
    let attached = attachment("7".to_string(), "YQ".to_string());
    assert_eq!(attached.id, Some("7".to_string()));
    assert!(matches!(attached.data.content, AttachmentType::Base64(text) if text == "YQ"));
}
