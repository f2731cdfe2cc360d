use maelstrom_node::node::MessageHandler;
use maelstrom_node::protocol::{Body, Broadcast, Echo, Init, Message, Workload};

fn envelope(src: &str, dest: &str, msg_id: Option<u64>, payload: Workload) -> Message {
    Message {
        src: src.to_string(),
        dest: dest.to_string(),
        body: Body {
            msg_id,
            in_reply_to: None,
            payload,
        },
    }
}

fn strings(v: &[&str]) -> Vec<String> {
    v.iter().map(|s| s.to_string()).collect()
}

fn init(node: &mut MessageHandler, id: &str) {
    let out = node.handle(envelope(
        "c0",
        id,
        Some(1),
        Workload::Init(Init::Init {
            node_id: id.to_string(),
            node_ids: strings(&["n1", "n2", "n3"]),
        }),
    ));
    assert_eq!(out.len(), 1);
}

fn topology(node: &mut MessageHandler, entries: &[(&str, &[&str])]) -> Vec<Message> {
    let topology = entries
        .iter()
        .map(|(k, v)| (k.to_string(), strings(v)))
        .collect();
    node.handle(envelope(
        "c0",
        "n1",
        Some(2),
        Workload::Broadcast(Broadcast::Topology { topology }),
    ))
}

fn broadcast(node: &mut MessageHandler, message: &str, msg_id: Option<u64>) -> Vec<Message> {
    node.handle(envelope(
        "c1",
        "n1",
        msg_id,
        Workload::Broadcast(Broadcast::Broadcast {
            message: message.to_string(),
        }),
    ))
}

#[test]
fn echo_reply_carries_text_and_answers_msg_id() {
    let mut node = MessageHandler::new();
    let out = node.handle(envelope(
        "c1",
        "n1",
        Some(7),
        Workload::Echo(Echo::Echo {
            echo: "foo".to_string(),
        }),
    ));
    assert_eq!(
        out,
        vec![Message {
            src: "n1".to_string(),
            dest: "c1".to_string(),
            body: Body {
                msg_id: Some(1),
                in_reply_to: Some(7),
                payload: Workload::Echo(Echo::EchoOk {
                    echo: "foo".to_string()
                }),
            },
        }]
    );
}

#[test]
fn init_sets_id_and_replies_init_ok() {
    let mut node = MessageHandler::new();
    assert_eq!(node.id(), &None);
    let out = node.handle(envelope(
        "c0",
        "n1",
        Some(5),
        Workload::Init(Init::Init {
            node_id: "n1".to_string(),
            node_ids: vec![],
        }),
    ));
    assert_eq!(node.id(), &Some("n1".to_string()));
    assert_eq!(out.len(), 1);
    assert_eq!(out[0].dest, "c0");
    assert_eq!(out[0].src, "n1");
    assert_eq!(out[0].body.in_reply_to, Some(5));
    assert_eq!(out[0].body.payload, Workload::Init(Init::InitOk));
}

#[test]
fn second_init_overwrites_id() {
    let mut node = MessageHandler::new();
    init(&mut node, "n1");
    init(&mut node, "n2");
    assert_eq!(node.id(), &Some("n2".to_string()));
}

#[test]
fn topology_for_unlisted_node_gives_no_neighbours() {
    let mut node = MessageHandler::new();
    init(&mut node, "x");
    let out = topology(&mut node, &[("a", &["b", "c"])]);
    assert!(node.neighbours().is_empty());
    assert_eq!(out.len(), 1);
    assert_eq!(out[0].body.payload, Workload::Broadcast(Broadcast::TopologyOk));
    assert_eq!(out[0].body.in_reply_to, Some(2));
}

#[test]
fn topology_before_init_gives_no_neighbours() {
    let mut node = MessageHandler::new();
    topology(&mut node, &[("a", &["b", "c"])]);
    assert!(node.neighbours().is_empty());
}

#[test]
fn topology_sets_listed_neighbours() {
    let mut node = MessageHandler::new();
    init(&mut node, "a");
    topology(&mut node, &[("z", &["q"]), ("a", &["b", "c"])]);
    assert_eq!(node.neighbours(), &strings(&["b", "c"]));
}

#[test]
fn empty_topology_gives_no_neighbours() {
    let mut node = MessageHandler::new();
    init(&mut node, "a");
    topology(&mut node, &[("a", &["b"])]);
    topology(&mut node, &[]);
    assert!(node.neighbours().is_empty());
}

#[test]
fn fresh_broadcast_floods_neighbours_and_acknowledges() {
    let mut node = MessageHandler::new();
    init(&mut node, "n1");
    topology(&mut node, &[("n1", &["n2", "n3"])]);
    let out = broadcast(&mut node, "42", Some(9));
    assert_eq!(out.len(), 3);
    for (i, to) in ["n2", "n3"].iter().enumerate() {
        assert_eq!(out[i].src, "n1");
        assert_eq!(out[i].dest, *to);
        assert_eq!(out[i].body.msg_id, Some(9));
        assert_eq!(out[i].body.in_reply_to, None);
        assert_eq!(
            out[i].body.payload,
            Workload::Broadcast(Broadcast::Broadcast {
                message: "42".to_string()
            })
        );
    }
    assert_eq!(out[2].dest, "c1");
    assert_eq!(out[2].body.in_reply_to, Some(9));
    assert_eq!(out[2].body.payload, Workload::Broadcast(Broadcast::BroadcastOk));
}

#[test]
fn gossip_without_msg_id_is_not_acknowledged() {
    let mut node = MessageHandler::new();
    init(&mut node, "n1");
    topology(&mut node, &[("n1", &["n2", "n3"])]);
    let out = broadcast(&mut node, "42", None);
    assert_eq!(out.len(), 2);
    assert_eq!(out[0].dest, "n2");
    assert_eq!(out[1].dest, "n3");
    assert_eq!(out[0].body.msg_id, None);
}

#[test]
fn duplicate_broadcast_is_a_no_op() {
    let mut node = MessageHandler::new();
    init(&mut node, "n1");
    topology(&mut node, &[("n1", &["n2"])]);
    let first = broadcast(&mut node, "7", Some(3));
    assert_eq!(first.len(), 2);
    let second = broadcast(&mut node, "7", Some(4));
    assert!(second.is_empty());
    let third = broadcast(&mut node, "7", None);
    assert!(third.is_empty());
    assert_eq!(node.messages(), &strings(&["7"]));
}

#[test]
fn read_returns_distinct_values_in_order() {
    let mut node = MessageHandler::new();
    init(&mut node, "n1");
    broadcast(&mut node, "1", Some(10));
    broadcast(&mut node, "1", Some(11));
    broadcast(&mut node, "3", Some(12));
    let out = node.handle(envelope(
        "c1",
        "n1",
        Some(13),
        Workload::Broadcast(Broadcast::Read),
    ));
    assert_eq!(out.len(), 1);
    assert_eq!(out[0].body.in_reply_to, Some(13));
    assert_eq!(
        out[0].body.payload,
        Workload::Broadcast(Broadcast::ReadOk {
            messages: strings(&["1", "3"])
        })
    );
}

#[test]
fn read_on_fresh_node_is_empty() {
    let mut node = MessageHandler::new();
    let out = node.handle(envelope("c1", "n1", None, Workload::Broadcast(Broadcast::Read)));
    assert_eq!(out.len(), 1);
    assert_eq!(out[0].body.in_reply_to, None);
    assert_eq!(
        out[0].body.payload,
        Workload::Broadcast(Broadcast::ReadOk { messages: vec![] })
    );
}

#[test]
fn replies_carry_increasing_msg_ids() {
    let mut node = MessageHandler::new();
    let mut ids = vec![];
    for i in 0..3u64 {
        let out = node.handle(envelope(
            "c1",
            "n1",
            Some(i),
            Workload::Echo(Echo::Echo {
                echo: "e".to_string(),
            }),
        ));
        ids.push(out[0].body.msg_id);
    }
    assert_eq!(ids, vec![Some(1), Some(2), Some(3)]);
}

#[test]
fn unsolicited_replies_are_ignored() {
    let mut node = MessageHandler::new();
    let payloads = vec![
        Workload::Echo(Echo::EchoOk {
            echo: "x".to_string(),
        }),
        Workload::Init(Init::InitOk),
        Workload::Broadcast(Broadcast::TopologyOk),
        Workload::Broadcast(Broadcast::BroadcastOk),
        Workload::Broadcast(Broadcast::ReadOk {
            messages: strings(&["1"]),
        }),
    ];
    for p in payloads {
        assert!(node.handle(envelope("c1", "n1", Some(1), p)).is_empty());
    }
    assert_eq!(node.id(), &None);
    assert!(node.messages().is_empty());
    let out = node.handle(envelope(
        "c1",
        "n1",
        Some(1),
        Workload::Echo(Echo::Echo {
            echo: "x".to_string(),
        }),
    ));
    assert_eq!(out[0].body.msg_id, Some(1));
}
