//! The node: its state and the transition that answers one envelope.
//!
//! `step` states, over the models of the state and of the envelope, what the
//! node does: the new state and the envelopes it sends, in order. `handle` is
//! proved to do exactly that.
use vstd::prelude::*;
use crate::protocol::{
    copy_strings, messages_view, strings_view, topology_view, Body, Broadcast, Echo, Init, Message,
    MessageModel, PayloadModel, Workload,
};

verus! {

/// The node's state as a mathematical value.
pub struct NodeModel {
    /// The node's own name, once an init has been answered.
    pub id: Option<Seq<char>>,
    /// The names of all nodes, as the last init gave them.
    pub other_nodes: Seq<Seq<char>>,
    /// The nodes that a new broadcast value is forwarded to.
    pub neighbours: Seq<Seq<char>>,
    /// Every broadcast value seen so far, in the order first seen.
    pub messages: Seq<Seq<char>>,
    /// The `msg_id` that the next reply carries.
    pub next_msg_id: u64,
}

/// The number that the first reply carries.
pub const FIRST_MSG_ID: u64 = 1;

pub open spec fn initial_model() -> NodeModel {
    NodeModel {
        id: None,
        other_nodes: Seq::empty(),
        neighbours: Seq::empty(),
        messages: Seq::empty(),
        next_msg_id: FIRST_MSG_ID,
    }
}

pub open spec fn opt_string_view(o: Option<String>) -> Option<Seq<char>> {
    match o {
        Some(s) => Some(s@),
        None => None,
    }
}

/// The neighbours listed for `key` in the first entry of `t` from index `i` on
/// whose node is `key`.
pub open spec fn lookup_from(t: Seq<(Seq<char>, Seq<Seq<char>>)>, key: Seq<char>, i: int) -> Option<
    Seq<Seq<char>>,
>
    decreases t.len() - i,
{
    if i < 0 || i >= t.len() {
        None
    } else if t[i].0 == key {
        Some(t[i].1)
    } else {
        lookup_from(t, key, i + 1)
    }
}

/// The neighbours that a topology gives a node: its entry, or none where the
/// node has no name yet or the topology does not list it.
pub open spec fn neighbours_of(t: Seq<(Seq<char>, Seq<Seq<char>>)>, id: Option<Seq<char>>) -> Seq<
    Seq<char>,
> {
    match id {
        Some(k) => match lookup_from(t, k, 0) {
            Some(ns) => ns,
            None => Seq::empty(),
        },
        None => Seq::empty(),
    }
}

/// The reply sequence number after `n`; it wraps after the largest `u64`.
pub open spec fn next_id(n: u64) -> u64 {
    if n == u64::MAX {
        0
    } else {
        (n + 1) as u64
    }
}

/// The state with the reply counter moved on by one.
pub open spec fn advance(s: NodeModel) -> NodeModel {
    NodeModel { next_msg_id: next_id(s.next_msg_id), ..s }
}

/// The reply to `m` that carries `p`: it goes back to the sender, answers
/// `m`'s `msg_id` and carries the node's next sequence number.
pub open spec fn reply(s: NodeModel, m: MessageModel, p: PayloadModel) -> MessageModel {
    MessageModel {
        src: m.dest,
        dest: m.src,
        msg_id: Some(s.next_msg_id),
        in_reply_to: m.msg_id,
        payload: p,
    }
}

/// The copy of broadcast `m` of `message` that is forwarded to neighbour `to`:
/// it keeps `m`'s `msg_id` and answers nothing.
pub open spec fn forward(m: MessageModel, to: Seq<char>, message: Seq<char>) -> MessageModel {
    MessageModel {
        src: m.dest,
        dest: to,
        msg_id: m.msg_id,
        in_reply_to: None,
        payload: PayloadModel::Broadcast { message },
    }
}

/// The forwards of a new broadcast value, one per neighbour, in their order.
pub open spec fn forwards(s: NodeModel, m: MessageModel, message: Seq<char>) -> Seq<MessageModel> {
    s.neighbours.map_values(|n: Seq<char>| forward(m, n, message))
}

/// What a node in state `s` does on envelope `m`: its next state and the
/// envelopes it sends, in order.
pub open spec fn step(s: NodeModel, m: MessageModel) -> (NodeModel, Seq<MessageModel>) {
    match m.payload {
        PayloadModel::Echo { echo } => (
            advance(s),
            seq![reply(s, m, PayloadModel::EchoOk { echo })],
        ),
        PayloadModel::Init { node_id, node_ids } => (
            advance(NodeModel { id: Some(node_id), other_nodes: node_ids, ..s }),
            seq![reply(s, m, PayloadModel::InitOk)],
        ),
        PayloadModel::Topology { topology } => (
            advance(NodeModel { neighbours: neighbours_of(topology, s.id), ..s }),
            seq![reply(s, m, PayloadModel::TopologyOk)],
        ),
        PayloadModel::Broadcast { message } => {
            if s.messages.contains(message) {
                (s, Seq::empty())
            } else {
                let s1 = NodeModel { messages: s.messages.push(message), ..s };
                if m.msg_id.is_some() {
                    (advance(s1), forwards(s, m, message).push(reply(s, m, PayloadModel::BroadcastOk)))
                } else {
                    (s1, forwards(s, m, message))
                }
            }
        },
        PayloadModel::Read => (
            advance(s),
            seq![reply(s, m, PayloadModel::ReadOk { messages: s.messages })],
        ),
        _ => (s, Seq::empty()),
    }
}

/// Whether `x` is in `v`.
fn contains_string(v: &Vec<String>, x: &String) -> (r: bool)
    ensures
        r == strings_view(v@).contains(x@),
{
    let mut i: usize = 0;
    while i < v.len()
        invariant
            i <= v.len(),
            forall|j: int| 0 <= j < i ==> #[trigger] v@[j]@ != x@,
        decreases v.len() - i,
    {
        if v[i] == *x {
            assert(strings_view(v@)[i as int] == x@);
            return true;
        }
        i = i + 1;
    }
    assert forall|j: int| 0 <= j < strings_view(v@).len() implies strings_view(v@)[j] != x@ by {
        assert(strings_view(v@)[j] == v@[j]@);
    }
    false
}

/// The neighbours that `topology` gives the node named `id`.
fn neighbours_for(topology: &Vec<(String, Vec<String>)>, id: &Option<String>) -> (r: Vec<String>)
    ensures
        strings_view(r@) == neighbours_of(topology_view(topology@), opt_string_view(*id)),
{
    let ghost t = topology_view(topology@);
    match id {
        None => Vec::new(),
        Some(k) => {
            let mut i: usize = 0;
            while i < topology.len()
                invariant
                    i <= topology.len(),
                    t == topology_view(topology@),
                    opt_string_view(*id) == Some(k@),
                    lookup_from(t, k@, 0) == lookup_from(t, k@, i as int),
                decreases topology.len() - i,
            {
                assert(t[i as int] == (topology@[i as int].0@, strings_view(topology@[i as int].1@)));
                if topology[i].0 == *k {
                    assert(lookup_from(t, k@, i as int) == Some(t[i as int].1));
                    let r = copy_strings(&topology[i].1);
                    assert(strings_view(r@) == t[i as int].1);
                    return r;
                }
                i = i + 1;
            }
            Vec::new()
        },
    }
}

/// One node's state. It answers one envelope at a time through `handle`.
pub struct MessageHandler {
    id: Option<String>,
    other_nodes: Vec<String>,
    messages: Vec<String>,
    neighbours: Vec<String>,
    next_msg_id: u64,
}

impl View for MessageHandler {
    type V = NodeModel;

    closed spec fn view(&self) -> NodeModel {
        NodeModel {
            id: opt_string_view(self.id),
            other_nodes: strings_view(self.other_nodes@),
            neighbours: strings_view(self.neighbours@),
            messages: strings_view(self.messages@),
            next_msg_id: self.next_msg_id,
        }
    }
}

impl MessageHandler {
    /// A node with no name, no neighbours and no broadcast value seen.
    pub fn new() -> (r: Self)
        ensures
            r@ == initial_model(),
    {
        let r = MessageHandler {
            id: None,
            other_nodes: Vec::new(),
            messages: Vec::new(),
            neighbours: Vec::new(),
            next_msg_id: FIRST_MSG_ID,
        };
        assert(r@.other_nodes =~= Seq::<Seq<char>>::empty());
        assert(r@.messages =~= Seq::<Seq<char>>::empty());
        assert(r@.neighbours =~= Seq::<Seq<char>>::empty());
        r
    }

    /// The node's name, once an init has been answered.
    pub fn id(&self) -> (r: &Option<String>)
        ensures
            opt_string_view(*r) == self@.id,
    {
        &self.id
    }

    /// The nodes that a new broadcast value is forwarded to.
    pub fn neighbours(&self) -> (r: &Vec<String>)
        ensures
            strings_view(r@) == self@.neighbours,
    {
        &self.neighbours
    }

    /// Every broadcast value seen so far, in the order first seen.
    pub fn messages(&self) -> (r: &Vec<String>)
        ensures
            strings_view(r@) == self@.messages,
    {
        &self.messages
    }

    /// Answers one envelope: updates the state and returns the envelopes to
    /// send, in order.
    pub fn handle(&mut self, message: Message) -> (out: Vec<Message>)
        ensures
            final(self)@ == step(old(self)@, message@).0,
            messages_view(out@) == step(old(self)@, message@).1,
    {
        let ghost m = message@;
        let Message { src, dest, body } = message;
        let Body { msg_id, in_reply_to: _, payload } = body;
        match payload {
            Workload::Echo(echo) => self.handle_echo(echo, src, dest, msg_id, Ghost(m)),
            Workload::Init(init) => self.handle_init(init, src, dest, msg_id, Ghost(m)),
            Workload::Broadcast(broadcast) => self.handle_broadcast(
                broadcast,
                src,
                dest,
                msg_id,
                Ghost(m),
            ),
        }
    }

    /// Appends to `out` the reply from `src` to `dest` that answers `in_reply_to`
    /// and carries `payload`, and moves the reply counter on.
    fn send_message(
        &mut self,
        out: &mut Vec<Message>,
        src: String,
        dest: String,
        payload: Workload,
        in_reply_to: Option<u64>,
    )
        ensures
            final(self)@ == advance(old(self)@),
            final(out)@.len() == old(out)@.len() + 1,
            final(out)@.subrange(0, old(out)@.len() as int) == old(out)@,
            final(out)@.last()@ == (MessageModel {
                src: src@,
                dest: dest@,
                msg_id: Some(old(self)@.next_msg_id),
                in_reply_to,
                payload: payload@,
            }),
    {
        let msg_id = self.next_msg_id;
        self.next_msg_id = if msg_id == u64::MAX {
            0
        } else {
            msg_id + 1
        };
        out.push(Message { src, dest, body: Body { msg_id: Some(msg_id), in_reply_to, payload } });
        assert(out@.subrange(0, old(out)@.len() as int) =~= old(out)@);
    }

    fn handle_echo(
        &mut self,
        echo: Echo,
        src: String,
        dest: String,
        msg_id: Option<u64>,
        Ghost(m): Ghost<MessageModel>,
    ) -> (out: Vec<Message>)
        requires
            m.src == src@,
            m.dest == dest@,
            m.msg_id == msg_id,
            m.payload == Workload::Echo(echo)@,
        ensures
            final(self)@ == step(old(self)@, m).0,
            messages_view(out@) == step(old(self)@, m).1,
    {
        let mut out: Vec<Message> = Vec::new();
        match echo {
            Echo::Echo { echo } => {
                self.send_message(&mut out, dest, src, Workload::Echo(Echo::EchoOk { echo }), msg_id);
            },
            Echo::EchoOk { .. } => {},
        }
        assert(messages_view(out@) =~= step(old(self)@, m).1);
        out
    }

    fn handle_init(
        &mut self,
        init: Init,
        src: String,
        dest: String,
        msg_id: Option<u64>,
        Ghost(m): Ghost<MessageModel>,
    ) -> (out: Vec<Message>)
        requires
            m.src == src@,
            m.dest == dest@,
            m.msg_id == msg_id,
            m.payload == Workload::Init(init)@,
        ensures
            final(self)@ == step(old(self)@, m).0,
            messages_view(out@) == step(old(self)@, m).1,
    {
        let mut out: Vec<Message> = Vec::new();
        match init {
            Init::Init { node_id, node_ids } => {
                self.id = Some(node_id);
                self.other_nodes = node_ids;
                self.send_message(&mut out, dest, src, Workload::Init(Init::InitOk), msg_id);
            },
            Init::InitOk => {},
        }
        assert(messages_view(out@) =~= step(old(self)@, m).1);
        out
    }

    fn handle_broadcast(
        &mut self,
        broadcast: Broadcast,
        src: String,
        dest: String,
        msg_id: Option<u64>,
        Ghost(m): Ghost<MessageModel>,
    ) -> (out: Vec<Message>)
        requires
            m.src == src@,
            m.dest == dest@,
            m.msg_id == msg_id,
            m.payload == Workload::Broadcast(broadcast)@,
        ensures
            final(self)@ == step(old(self)@, m).0,
            messages_view(out@) == step(old(self)@, m).1,
    {
        let ghost s0 = self@;
        let mut out: Vec<Message> = Vec::new();
        match broadcast {
            Broadcast::Topology { topology } => {
                self.neighbours = neighbours_for(&topology, &self.id);
                self.send_message(
                    &mut out,
                    dest,
                    src,
                    Workload::Broadcast(Broadcast::TopologyOk),
                    msg_id,
                );
            },
            Broadcast::Broadcast { message } => {
                if !contains_string(&self.messages, &message) {
                    self.messages.push(message.clone());
                    assert(self@.messages =~= s0.messages.push(message@));
                    let mut i: usize = 0;
                    while i < self.neighbours.len()
                        invariant
                            i <= self.neighbours.len(),
                            self@ == (NodeModel { messages: s0.messages.push(message@), ..s0 }),
                            m.dest == dest@,
                            m.msg_id == msg_id,
                            out@.len() == i,
                            forall|j: int|
                                0 <= j < i ==> #[trigger] out@[j]@ == forward(
                                    m,
                                    s0.neighbours[j],
                                    message@,
                                ),
                        decreases self.neighbours.len() - i,
                    {
                        assert(s0.neighbours[i as int] == self.neighbours@[i as int]@);
                        let forwarded = Message {
                            src: dest.clone(),
                            dest: self.neighbours[i].clone(),
                            body: Body {
                                msg_id,
                                in_reply_to: None,
                                payload: Workload::Broadcast(
                                    Broadcast::Broadcast { message: message.clone() },
                                ),
                            },
                        };
                        out.push(forwarded);
                        i = i + 1;
                    }
                    assert(messages_view(out@) =~= forwards(s0, m, message@));
                    if msg_id.is_some() {
                        self.send_message(
                            &mut out,
                            dest,
                            src,
                            Workload::Broadcast(Broadcast::BroadcastOk),
                            msg_id,
                        );
                    }
                }
            },
            Broadcast::Read => {
                let messages = copy_strings(&self.messages);
                self.send_message(
                    &mut out,
                    dest,
                    src,
                    Workload::Broadcast(Broadcast::ReadOk { messages }),
                    msg_id,
                );
            },
            Broadcast::TopologyOk | Broadcast::BroadcastOk | Broadcast::ReadOk { .. } => {},
        }
        assert(messages_view(out@) =~= step(s0, m).1);
        out
    }
}

} // verus!
