//! What a node does on a message, as a function of its state and the message:
//! the state it is in afterwards and the messages it sends. The node in
//! `member_node` is held to these functions, and what follows from them for
//! several steps is proved here.
use crate::member_node::{
    eligible_hosts, is_witness_draw, merged, with_member, with_state, MemberNodeState,
    MemberNodeView,
};
use crate::message::MessageView;
use vstd::prelude::*;

verus! {

/// The number of witnesses that a node asks to probe a peer that it suspects.
pub const NUMBER_RANDOM_PROBE_NODES: usize = 3;

/// The seconds between two ticks of a node's prober.
pub const PING_DELAY: u64 = 1;

/// A node as a mathematical value: its details, and whether it has been shut down.
pub struct NodeView {
    pub details: MemberNodeView,
    pub terminated: bool,
}

impl MemberNodeView {
    /// The details of a node that knows nobody yet.
    pub open spec fn fresh(host: u16) -> MemberNodeView {
        MemberNodeView {
            host,
            state: MemberNodeState::Alive,
            members: Map::<u16, MemberNodeState>::empty(),
        }
    }

    /// Whether the view holds peers only, and not the node itself.
    pub open spec fn knows_only_peers(self) -> bool {
        !self.members.contains_key(self.host)
    }
}

impl NodeView {
    /// The node with its view of its peers replaced.
    pub open spec fn with_members(self, members: Map<u16, MemberNodeState>) -> NodeView {
        NodeView { details: MemberNodeView { members, ..self.details }, ..self }
    }

    /// Whether the node's prober sends pings at all: not once the node is shut
    /// down, and not while it holds itself failed.
    pub open spec fn probes(self) -> bool {
        !self.terminated && self.details.state != MemberNodeState::Failed
    }
}

/// The state of `node` after it has handled `message`.
pub open spec fn next_state(node: NodeView, message: MessageView) -> NodeView {
    let members = node.details.members;
    if node.terminated {
        node
    } else {
        match message {
            MessageView::Request(from, _) => node.with_members(with_member(members, from.host)),
            MessageView::Response(from, _) => node.with_members(with_member(members, from.host)),
            MessageView::Ping(from, _) => node.with_members(
                merged(members, node.details.host, from.members),
            ),
            MessageView::PingResponse(from, None, is_timed_out) => node.with_members(
                with_state(
                    members,
                    from,
                    if is_timed_out {
                        MemberNodeState::Suspected
                    } else {
                        MemberNodeState::Alive
                    },
                ),
            ),
            MessageView::PingResponse(_, Some(_), _) => node,
            MessageView::ProbeRequest(_, _) => node,
            MessageView::ProbeResponse(target, is_timed_out) => if is_timed_out {
                node
            } else {
                node.with_members(with_state(members, target, MemberNodeState::Alive))
            },
            MessageView::Shutdown => NodeView { terminated: true, ..node },
        }
    }
}

/// Whether `node` draws witnesses at random when it handles `message`: it does
/// when its own probe of a peer has timed out.
pub open spec fn draws_witnesses(node: NodeView, message: MessageView) -> bool {
    !node.terminated && message matches MessageView::PingResponse(_, None, true)
}

/// One request to each of `witnesses` to probe `suspect` on behalf of `from`.
pub open spec fn probe_requests_to(
    witnesses: Seq<u16>,
    from: MemberNodeView,
    suspect: u16,
) -> Seq<(u16, MessageView)> {
    Seq::new(witnesses.len(), |i: int| (witnesses[i], MessageView::ProbeRequest(from, suspect)))
}

/// The hosts that the messages of `outbound` go to, in order.
pub open spec fn recipients(outbound: Seq<(u16, MessageView)>) -> Seq<u16> {
    Seq::new(outbound.len(), |i: int| outbound[i].0)
}

/// The messages that `node` sends when it handles `message`, each with the host
/// it goes to. `witnesses` are the hosts that it drew where `draws_witnesses`
/// holds, and are not looked at otherwise. A message that carries the node's
/// details carries them as they are after the message was handled.
pub open spec fn replies(node: NodeView, message: MessageView, witnesses: Seq<u16>) -> Seq<
    (u16, MessageView),
> {
    let after = next_state(node, message).details;
    if node.terminated {
        Seq::empty()
    } else {
        match message {
            MessageView::Request(from, _) => seq![(from.host, MessageView::Response(after, "hi"@))],
            MessageView::Response(_, _) => Seq::empty(),
            MessageView::Ping(from, probing_node) => seq![
                (
                    from.host,
                    MessageView::PingResponse(
                        node.details.host,
                        probing_node,
                        node.details.state != MemberNodeState::Alive,
                    ),
                ),
            ],
            MessageView::PingResponse(from, Some(probing_node), is_timed_out) => seq![
                (probing_node.host, MessageView::ProbeResponse(from, is_timed_out)),
            ],
            MessageView::PingResponse(from, None, is_timed_out) => if is_timed_out {
                probe_requests_to(witnesses, after, from)
            } else {
                Seq::empty()
            },
            MessageView::ProbeRequest(from, target) => seq![
                (target, MessageView::Ping(after, Some(from))),
            ],
            MessageView::ProbeResponse(_, _) => Seq::empty(),
            MessageView::Shutdown => Seq::empty(),
        }
    }
}

/// Whether `message` is a greeting or the answer to one, sent by `host`.
pub open spec fn is_greeting_from(message: MessageView, host: u16) -> bool {
    match message {
        MessageView::Request(from, _) => from.host == host,
        MessageView::Response(from, _) => from.host == host,
        _ => false,
    }
}

/// The state of `node` after it has handled `messages` one after the other.
pub open spec fn after_all(node: NodeView, messages: Seq<MessageView>) -> NodeView
    decreases messages.len(),
{
    if messages.len() == 0 {
        node
    } else {
        next_state(after_all(node, messages.drop_last()), messages.last())
    }
}

/// No message changes the host of a node or the liveness that it holds of itself.
pub proof fn lemma_identity_is_kept(node: NodeView, message: MessageView)
    ensures
        next_state(node, message).details.host == node.details.host,
        next_state(node, message).details.state == node.details.state,
{
}

/// A node never comes to hold itself in its view of its peers: if the view holds
/// peers only, it still does after any message, except after a greeting that
/// names the node itself as its sender.
pub proof fn lemma_view_keeps_to_peers(node: NodeView, message: MessageView)
    requires
        node.details.knows_only_peers(),
        !is_greeting_from(message, node.details.host),
    ensures
        next_state(node, message).details.knows_only_peers(),
{
}

/// Whatever reaches a node, in whatever order, its view holds peers only if it
/// did at the start, as long as no greeting names the node itself as its sender.
/// A node that was just made knows nobody, so this holds of it all its life.
pub proof fn lemma_view_never_holds_owner(node: NodeView, messages: Seq<MessageView>)
    requires
        node.details.knows_only_peers(),
        forall|i: int|
            0 <= i < messages.len() ==> !is_greeting_from(#[trigger] messages[i], node.details.host),
    ensures
        after_all(node, messages).details.host == node.details.host,
        after_all(node, messages).details.state == node.details.state,
        after_all(node, messages).details.knows_only_peers(),
    decreases messages.len(),
{
    if messages.len() > 0 {
        lemma_view_never_holds_owner(node, messages.drop_last());
        lemma_view_keeps_to_peers(after_all(node, messages.drop_last()), messages.last());
    }
}

/// A host that a node has heard of stays in its view, whatever is known of it,
/// on every message but a ping whose sender holds that host failed.
pub proof fn lemma_known_hosts_stay(node: NodeView, message: MessageView, host: u16)
    requires
        node.details.members.contains_key(host),
        !(message matches MessageView::Ping(from, _) && from.members.contains_key(host)
            && from.members[host] == MemberNodeState::Failed),
    ensures
        next_state(node, message).details.members.contains_key(host),
{
}

/// Where nothing fails, nothing is taken back: a peer that a node holds alive is
/// still held alive after every message but the timed-out answer of that peer to
/// the node's own ping, and a ping from a sender that does not hold it alive.
pub proof fn lemma_alive_peer_stays_alive(node: NodeView, message: MessageView, host: u16)
    requires
        node.details.members.contains_key(host),
        node.details.members[host] == MemberNodeState::Alive,
        !(message matches MessageView::PingResponse(from, None, true) && from == host),
        !(message matches MessageView::Ping(from, _) && from.members.contains_key(host)
            && from.members[host] != MemberNodeState::Alive),
    ensures
        next_state(node, message).details.members.contains_key(host),
        next_state(node, message).details.members[host] == MemberNodeState::Alive,
{
}

/// A host that the view of a peer holds failed is not in a view after that view
/// was merged into it: it is taken out, not kept as failed. Only what the peer
/// says of the owner of the view is not heard.
pub proof fn lemma_merge_removes_failed(
    members: Map<u16, MemberNodeState>,
    self_id: u16,
    other: Map<u16, MemberNodeState>,
    host: u16,
)
    requires
        other.contains_key(host),
        other[host] == MemberNodeState::Failed,
        host != self_id,
    ensures
        !merged(members, self_id, other).contains_key(host),
{
}

/// On a ping, a node takes every peer that the sender holds failed out of its own view.
pub proof fn lemma_ping_removes_failed(
    node: NodeView,
    from: MemberNodeView,
    probing_node: Option<MemberNodeView>,
    host: u16,
)
    requires
        !node.terminated,
        from.members.contains_key(host),
        from.members[host] == MemberNodeState::Failed,
        host != node.details.host,
    ensures
        !next_state(node, MessageView::Ping(from, probing_node)).details.members.contains_key(
            host,
        ),
{
}

/// On a ping, a node takes over what the sender knows of every peer that the
/// sender does not hold failed.
pub proof fn lemma_ping_spreads_view(
    node: NodeView,
    from: MemberNodeView,
    probing_node: Option<MemberNodeView>,
    host: u16,
)
    requires
        !node.terminated,
        from.members.contains_key(host),
        from.members[host] != MemberNodeState::Failed,
        host != node.details.host,
    ensures
        ({
            let members = next_state(node, MessageView::Ping(from, probing_node)).details.members;
            members.contains_key(host) && members[host] == from.members[host]
        }),
{
}

/// Merging the same view a second time changes nothing.
pub proof fn lemma_merge_twice(
    members: Map<u16, MemberNodeState>,
    self_id: u16,
    other: Map<u16, MemberNodeState>,
)
    ensures
        merged(merged(members, self_id, other), self_id, other) == merged(members, self_id, other),
{
}

/// A node that handles the same ping a second time is in the state in which the
/// first left it.
pub proof fn lemma_ping_twice(
    node: NodeView,
    from: MemberNodeView,
    probing_node: Option<MemberNodeView>,
)
    ensures
        ({
            let ping = MessageView::Ping(from, probing_node);
            next_state(next_state(node, ping), ping) == next_state(node, ping)
        }),
{
    lemma_merge_twice(node.details.members, node.details.host, from.members);
}

/// Once a node has been greeted by a host, further greetings from that host and
/// answers to greetings change nothing in its state, whatever they carry.
pub proof fn lemma_greeting_twice(
    node: NodeView,
    host: u16,
    first: MessageView,
    second: MessageView,
)
    requires
        is_greeting_from(first, host),
        is_greeting_from(second, host),
    ensures
        next_state(next_state(node, first), second) == next_state(node, first),
{
}

/// Two running nodes that do not know each other do after one greeting and its
/// answer: each holds the other alive.
pub proof fn lemma_handshake(greeter: NodeView, greeted: NodeView, text: Seq<char>)
    requires
        !greeter.terminated,
        !greeted.terminated,
        !greeter.details.members.contains_key(greeted.details.host),
        !greeted.details.members.contains_key(greeter.details.host),
    ensures
        ({
            let request = MessageView::Request(greeter.details, text);
            let answer = replies(greeted, request, Seq::empty());
            let greeted_after = next_state(greeted, request);
            &&& answer.len() == 1
            &&& answer[0].0 == greeter.details.host
            &&& answer[0].1 == MessageView::Response(greeted_after.details, "hi"@)
            &&& greeted_after.details.members[greeter.details.host] == MemberNodeState::Alive
            &&& next_state(greeter, answer[0].1).details.members[greeted.details.host]
                == MemberNodeState::Alive
        }),
{
}

/// A running node that does not hold itself alive answers every ping with a
/// time-out, and a node that does answers with none. The answer goes to the
/// sender of the ping and names the node on whose behalf the ping was made.
pub proof fn lemma_ping_is_answered(
    node: NodeView,
    from: MemberNodeView,
    probing_node: Option<MemberNodeView>,
    witnesses: Seq<u16>,
)
    requires
        !node.terminated,
    ensures
        replies(node, MessageView::Ping(from, probing_node), witnesses) == seq![
            (
                from.host,
                MessageView::PingResponse(
                    node.details.host,
                    probing_node,
                    node.details.state != MemberNodeState::Alive,
                ),
            ),
        ],
{
}

/// A peer that does not hold itself alive is found out by two probes: an
/// observer that holds it alive suspects it after the answer to a first ping of
/// its own, and holds it failed after the answer to a second.
pub proof fn lemma_two_probes_fail(observer: NodeView, peer: NodeView)
    requires
        !observer.terminated,
        !peer.terminated,
        peer.details.state != MemberNodeState::Alive,
        observer.details.members.contains_key(peer.details.host),
        observer.details.members[peer.details.host] == MemberNodeState::Alive,
    ensures
        ({
            let first_ping = MessageView::Ping(observer.details, None);
            let first_answer = replies(peer, first_ping, Seq::empty())[0];
            let peer_then = next_state(peer, first_ping);
            let observer_then = next_state(observer, first_answer.1);
            let second_ping = MessageView::Ping(observer_then.details, None);
            let second_answer = replies(peer_then, second_ping, Seq::empty())[0];
            let observer_last = next_state(observer_then, second_answer.1);
            &&& first_answer.0 == observer.details.host
            &&& second_answer.0 == observer.details.host
            &&& observer_then.details.members[peer.details.host] == MemberNodeState::Suspected
            &&& observer_last.details.members[peer.details.host] == MemberNodeState::Failed
        }),
{
}

/// A witness that found a suspected peer responsive clears it: the node that
/// hears so holds the peer alive again. A witness that found it unresponsive
/// changes nothing.
pub proof fn lemma_witness_report(node: NodeView, target: u16, is_timed_out: bool)
    requires
        !node.terminated,
        node.details.members.contains_key(target),
    ensures
        ({
            let after = next_state(node, MessageView::ProbeResponse(target, is_timed_out));
            if is_timed_out {
                after == node
            } else {
                after.details.members == node.details.members.insert(
                    target,
                    MemberNodeState::Alive,
                )
            }
        }),
{
}

/// A witness clears a peer that answers it. Asked by an observer to probe a peer,
/// the witness pings the peer in the observer's name; the peer, which holds
/// itself alive, answers the witness; the witness reports to the observer; and
/// the observer, whatever it held of the peer, holds it alive.
pub proof fn lemma_witness_rescue(observer: NodeView, witness: NodeView, peer: NodeView)
    requires
        !observer.terminated,
        !witness.terminated,
        !peer.terminated,
        peer.details.state == MemberNodeState::Alive,
        observer.details.members.contains_key(peer.details.host),
    ensures
        ({
            let request = MessageView::ProbeRequest(observer.details, peer.details.host);
            let ping = replies(witness, request, Seq::empty())[0];
            let answer = replies(peer, ping.1, Seq::empty())[0];
            let report = replies(next_state(witness, request), answer.1, Seq::empty())[0];
            &&& ping == (peer.details.host, MessageView::Ping(witness.details, Some(observer.details)))
            &&& answer == (
                witness.details.host,
                MessageView::PingResponse(peer.details.host, Some(observer.details), false),
            )
            &&& report == (
                observer.details.host,
                MessageView::ProbeResponse(peer.details.host, false),
            )
            &&& next_state(observer, report.1).details.members[peer.details.host]
                == MemberNodeState::Alive
        }),
{
}

/// The message `Shutdown` ends a node, and a node that is ended stays as it is
/// and sends nothing, whatever reaches it.
pub proof fn lemma_shutdown_is_final(node: NodeView, message: MessageView, witnesses: Seq<u16>)
    ensures
        next_state(node, MessageView::Shutdown).terminated,
        !next_state(node, MessageView::Shutdown).probes(),
        node.terminated ==> next_state(node, message) == node && replies(node, message, witnesses)
            == Seq::<(u16, MessageView)>::empty(),
{
}

/// A node that has handled `Shutdown` is ended for good: whatever reaches it
/// later, it stays ended, and as it was when it ended.
pub proof fn lemma_ended_for_good(node: NodeView, messages: Seq<MessageView>)
    requires
        node.terminated,
    ensures
        after_all(node, messages) == node,
    decreases messages.len(),
{
    if messages.len() > 0 {
        lemma_ended_for_good(node, messages.drop_last());
    }
}

/// The witnesses that a node draws when its own probe of a peer has timed out
/// are peers that it holds alive: the suspected peer is not among them, nor is
/// the node itself where its view holds peers only.
pub proof fn lemma_witnesses_are_peers(node: NodeView, suspect: u16, witnesses: Seq<u16>)
    requires
        !node.terminated,
        node.details.knows_only_peers(),
        node.details.members.contains_key(suspect),
        is_witness_draw(
            next_state(
                node,
                MessageView::PingResponse(suspect, None, true),
            ).details.members,
            NUMBER_RANDOM_PROBE_NODES as nat,
            witnesses,
        ),
    ensures
        witnesses.len() <= NUMBER_RANDOM_PROBE_NODES,
        witnesses.no_duplicates(),
        !witnesses.contains(suspect),
        !witnesses.contains(node.details.host),
        forall|i: int|
            0 <= i < witnesses.len() ==> node.details.members.contains_key(#[trigger] witnesses[i])
                && node.details.members[witnesses[i]] == MemberNodeState::Alive,
{
}

} // verus!
