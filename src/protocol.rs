//! The message types of the node protocol, and their mathematical models.
//!
//! A `Message` is one routed envelope: a source, a destination and a body. The
//! body carries the optional correlation numbers and exactly one payload. The
//! payload of a broadcast is an opaque JSON value, which the library holds as
//! its JSON text and only ever compares and copies.
use vstd::prelude::*;

verus! {

/// One routed envelope.
#[derive(Debug, Clone, PartialEq, Eq)]
pub struct Message {
    pub src: String,
    pub dest: String,
    pub body: Body,
}

/// The body of an envelope: the correlation numbers and the payload.
#[derive(Debug, Clone, PartialEq, Eq)]
pub struct Body {
    pub msg_id: Option<u64>,
    pub in_reply_to: Option<u64>,
    pub payload: Workload,
}

/// The payload, grouped by the workload it belongs to.
#[derive(Debug, Clone, PartialEq, Eq)]
pub enum Workload {
    Echo(Echo),
    Init(Init),
    Broadcast(Broadcast),
}

#[derive(Debug, Clone, PartialEq, Eq)]
pub enum Echo {
    Echo { echo: String },
    EchoOk { echo: String },
}

#[derive(Debug, Clone, PartialEq, Eq)]
pub enum Init {
    Init { node_id: String, node_ids: Vec<String> },
    InitOk,
}

/// The broadcast workload. A topology is a list of (node, neighbours) entries
/// with distinct node names; `message` and `messages` hold JSON text.
#[derive(Debug, Clone, PartialEq, Eq)]
pub enum Broadcast {
    Topology { topology: Vec<(String, Vec<String>)> },
    TopologyOk,
    Broadcast { message: String },
    BroadcastOk,
    Read,
    ReadOk { messages: Vec<String> },
}

/// The payload as a mathematical value: one variant per message type.
pub enum PayloadModel {
    Echo { echo: Seq<char> },
    EchoOk { echo: Seq<char> },
    Init { node_id: Seq<char>, node_ids: Seq<Seq<char>> },
    InitOk,
    Topology { topology: Seq<(Seq<char>, Seq<Seq<char>>)> },
    TopologyOk,
    Broadcast { message: Seq<char> },
    BroadcastOk,
    Read,
    ReadOk { messages: Seq<Seq<char>> },
}

/// An envelope as a mathematical value.
pub struct MessageModel {
    pub src: Seq<char>,
    pub dest: Seq<char>,
    pub msg_id: Option<u64>,
    pub in_reply_to: Option<u64>,
    pub payload: PayloadModel,
}

pub open spec fn strings_view(v: Seq<String>) -> Seq<Seq<char>> {
    v.map_values(|s: String| s@)
}

pub open spec fn topology_view(t: Seq<(String, Vec<String>)>) -> Seq<(Seq<char>, Seq<Seq<char>>)> {
    t.map_values(|e: (String, Vec<String>)| (e.0@, strings_view(e.1@)))
}

pub open spec fn messages_view(v: Seq<Message>) -> Seq<MessageModel> {
    v.map_values(|m: Message| m@)
}

impl View for Workload {
    type V = PayloadModel;

    open spec fn view(&self) -> PayloadModel {
        match self {
            Workload::Echo(Echo::Echo { echo }) => PayloadModel::Echo { echo: echo@ },
            Workload::Echo(Echo::EchoOk { echo }) => PayloadModel::EchoOk { echo: echo@ },
            Workload::Init(Init::Init { node_id, node_ids }) => PayloadModel::Init {
                node_id: node_id@,
                node_ids: strings_view(node_ids@),
            },
            Workload::Init(Init::InitOk) => PayloadModel::InitOk,
            Workload::Broadcast(Broadcast::Topology { topology }) => PayloadModel::Topology {
                topology: topology_view(topology@),
            },
            Workload::Broadcast(Broadcast::TopologyOk) => PayloadModel::TopologyOk,
            Workload::Broadcast(Broadcast::Broadcast { message }) => PayloadModel::Broadcast {
                message: message@,
            },
            Workload::Broadcast(Broadcast::BroadcastOk) => PayloadModel::BroadcastOk,
            Workload::Broadcast(Broadcast::Read) => PayloadModel::Read,
            Workload::Broadcast(Broadcast::ReadOk { messages }) => PayloadModel::ReadOk {
                messages: strings_view(messages@),
            },
        }
    }
}

impl View for Message {
    type V = MessageModel;

    open spec fn view(&self) -> MessageModel {
        MessageModel {
            src: self.src@,
            dest: self.dest@,
            msg_id: self.body.msg_id,
            in_reply_to: self.body.in_reply_to,
            payload: self.body.payload@,
        }
    }
}

/// Copies a list of strings.
pub fn copy_strings(v: &Vec<String>) -> (r: Vec<String>)
    ensures
        strings_view(r@) == strings_view(v@),
{
    let mut r: Vec<String> = Vec::new();
    let mut i: usize = 0;
    while i < v.len()
        invariant
            i <= v.len(),
            r@.len() == i,
            forall|j: int| 0 <= j < i ==> #[trigger] r@[j]@ == v@[j]@,
        decreases v.len() - i,
    {
        r.push(v[i].clone());
        i = i + 1;
    }
    assert(strings_view(r@) =~= strings_view(v@));
    r
}

} // verus!
