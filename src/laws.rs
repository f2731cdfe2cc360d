//! Properties of the node's transition that relate several envelopes or hold
//! for every state.
use vstd::prelude::*;
use crate::node::{forward, initial_model, lookup_from, reply, step, NodeModel};
use crate::protocol::{MessageModel, PayloadModel};

verus! {

/// A topology in which no entry from index `i` on names `key` gives `key` no
/// neighbours.
pub proof fn lemma_lookup_absent(t: Seq<(Seq<char>, Seq<Seq<char>>)>, key: Seq<char>, i: int)
    requires
        forall|j: int| 0 <= j < t.len() ==> #[trigger] t[j].0 != key,
    ensures
        lookup_from(t, key, i) is None,
    decreases t.len() - i,
{
    if 0 <= i < t.len() {
        lemma_lookup_absent(t, key, i + 1);
    }
}

/// Delivering the same broadcast value twice records it once and forwards it
/// at most once: the second delivery leaves the state as it is and sends
/// nothing, whatever its sender or `msg_id`.
pub proof fn lemma_broadcast_idempotent(
    s: NodeModel,
    m1: MessageModel,
    m2: MessageModel,
    message: Seq<char>,
)
    requires
        m1.payload == (PayloadModel::Broadcast { message }),
        m2.payload == (PayloadModel::Broadcast { message }),
    ensures
        ({
            let s1 = step(s, m1).0;
            let (s2, out2) = step(s1, m2);
            &&& s1.messages.contains(message)
            &&& s.messages.contains(message) ==> s1.messages == s.messages
            &&& !s.messages.contains(message) ==> s1.messages == s.messages.push(message)
            &&& s2 == s1
            &&& out2.len() == 0
        }),
{
    let s1 = step(s, m1).0;
    if !s.messages.contains(message) {
        assert(s1.messages[s.messages.len() as int] == message);
    }
}

/// A value not seen before is forwarded once to each neighbour, in the
/// neighbours' order, and, where the broadcast carried a `msg_id`, one
/// acknowledgement goes back to its sender, last.
pub proof fn lemma_flood_coverage(s: NodeModel, m: MessageModel, message: Seq<char>)
    requires
        m.payload == (PayloadModel::Broadcast { message }),
        !s.messages.contains(message),
    ensures
        ({
            let out = step(s, m).1;
            &&& out.len() == s.neighbours.len() + if m.msg_id is Some { 1int } else { 0int }
            &&& forall|i: int|
                0 <= i < s.neighbours.len() ==> #[trigger] out[i] == forward(
                    m,
                    s.neighbours[i],
                    message,
                ) && out[i].dest == s.neighbours[i] && out[i].payload == (PayloadModel::Broadcast {
                    message,
                })
            &&& m.msg_id is Some ==> {
                &&& out.last() == reply(s, m, PayloadModel::BroadcastOk)
                &&& out.last().dest == m.src
                &&& out.last().in_reply_to == m.msg_id
            }
        }),
{
    let out = step(s, m).1;
    assert forall|i: int| 0 <= i < s.neighbours.len() implies #[trigger] out[i] == forward(
        m,
        s.neighbours[i],
        message,
    ) by {}
}

/// On a node that has seen no broadcast value, broadcasts of `x1`, `x1` again
/// and a different `x3` make a read answer with exactly `[x1, x3]`.
pub proof fn lemma_read_after_broadcasts(
    s: NodeModel,
    b1: MessageModel,
    b2: MessageModel,
    b3: MessageModel,
    r: MessageModel,
    x1: Seq<char>,
    x3: Seq<char>,
)
    requires
        s.messages.len() == 0,
        b1.payload == (PayloadModel::Broadcast { message: x1 }),
        b2.payload == (PayloadModel::Broadcast { message: x1 }),
        b3.payload == (PayloadModel::Broadcast { message: x3 }),
        x3 != x1,
        r.payload == PayloadModel::Read,
    ensures
        ({
            let s3 = step(step(step(s, b1).0, b2).0, b3).0;
            let out = step(s3, r).1;
            &&& s3.messages == seq![x1, x3]
            &&& out == seq![reply(s3, r, PayloadModel::ReadOk { messages: seq![x1, x3] })]
        }),
{
    let s1 = step(s, b1).0;
    assert(s1.messages =~= seq![x1]);
    assert(s1.messages[0] == x1);
    let s2 = step(s1, b2).0;
    assert(!s2.messages.contains(x3)) by {
        if s2.messages.contains(x3) {
            let j = choose|j: int| 0 <= j < s2.messages.len() && s2.messages[j] == x3;
            assert(s2.messages[j] == x1);
        }
    }
    let s3 = step(s2, b3).0;
    assert(s3.messages =~= seq![x1, x3]);
}

/// A topology that does not list the node, or reaches a node with no name,
/// leaves it with no neighbours.
pub proof fn lemma_topology_default(
    s: NodeModel,
    m: MessageModel,
    topology: Seq<(Seq<char>, Seq<Seq<char>>)>,
)
    requires
        m.payload == (PayloadModel::Topology { topology }),
        forall|j: int|
            0 <= j < topology.len() ==> s.id != Some(#[trigger] topology[j].0),
    ensures
        step(s, m).0.neighbours == Seq::<Seq<char>>::empty(),
{
    if let Some(k) = s.id {
        assert forall|j: int| 0 <= j < topology.len() implies #[trigger] topology[j].0 != k by {}
        lemma_lookup_absent(topology, k, 0);
    }
}

/// An echo is answered by exactly one envelope: back to its sender, carrying
/// the same text, and answering its `msg_id`.
pub proof fn lemma_echo_fidelity(s: NodeModel, m: MessageModel, echo: Seq<char>)
    requires
        m.payload == (PayloadModel::Echo { echo }),
    ensures
        ({
            let out = step(s, m).1;
            &&& out.len() == 1
            &&& out[0].payload == (PayloadModel::EchoOk { echo })
            &&& out[0].in_reply_to == m.msg_id
            &&& out[0].dest == m.src
            &&& out[0].src == m.dest
        }),
{
}

/// Every envelope a node sends in answer to `m` either goes back to `m`'s
/// sender and answers `m`'s `msg_id`, or is a forward of `m`'s broadcast value
/// from the node `m` was addressed to.
pub proof fn lemma_replies_answer_request(s: NodeModel, m: MessageModel)
    ensures
        forall|i: int|
            0 <= i < step(s, m).1.len() ==> {
                let o = #[trigger] step(s, m).1[i];
                &&& o.src == m.dest
                &&& (o.dest == m.src && o.in_reply_to == m.msg_id) || (
                o.payload == m.payload && o.msg_id == m.msg_id && o.in_reply_to is None)
            },
{
}

/// The list of seen broadcast values only grows, and keeps its order.
pub proof fn lemma_seen_only_grows(s: NodeModel, m: MessageModel)
    ensures
        s.messages.len() <= step(s, m).0.messages.len(),
        step(s, m).0.messages.subrange(0, s.messages.len() as int) == s.messages,
{
    assert(step(s, m).0.messages.subrange(0, s.messages.len() as int) =~= s.messages);
}

/// The seen broadcast values hold no value twice: a fresh node starts so, and
/// every envelope keeps it so.
pub proof fn lemma_seen_stays_distinct(s: NodeModel, m: MessageModel)
    requires
        s.messages.no_duplicates(),
    ensures
        step(s, m).0.messages.no_duplicates(),
        initial_model().messages.no_duplicates(),
{
    if let PayloadModel::Broadcast { message } = m.payload {
        if !s.messages.contains(message) {
            let t = s.messages.push(message);
            assert forall|i: int, j: int| 0 <= i < t.len() && 0 <= j < t.len() && i != j implies t[i]
                != t[j] by {
                if i == s.messages.len() {
                    assert(t[j] == s.messages[j]);
                } else if j == s.messages.len() {
                    assert(t[i] == s.messages[i]);
                }
            }
        }
    }
}

} // verus!
