//! The state of a node: the liveness of peers, a node's view of its peers, the
//! details that a node holds and sends of itself, and the node that handles
//! messages and ticks its prober.
use crate::message::{Message, MessageView};
use crate::protocol::{
    draws_witnesses, is_greeting_from, next_state, probe_requests_to, recipients, replies,
    NodeView, NUMBER_RANDOM_PROBE_NODES,
};
use crate::random::{random_index, shuffle};
use crate::text::{decimal, push_decimal};
use std::collections::HashMap;
use vstd::prelude::*;
use vstd::std_specs::hash::spec_keys_iter;
use vstd::std_specs::iter::IteratorSpec;
use vstd::string::StringExecFns;

verus! {

/// What a node knows of the liveness of a peer, or of itself.
#[derive(Clone, Copy, PartialEq, Eq, Debug, Structural)]
pub enum MemberNodeState {
    Alive,
    Suspected,
    Failed,
}

/// The name of a state, as it is written in listings.
pub open spec fn state_name(state: MemberNodeState) -> Seq<char> {
    match state {
        MemberNodeState::Alive => "Alive"@,
        MemberNodeState::Suspected => "Suspected"@,
        MemberNodeState::Failed => "Failed"@,
    }
}

impl MemberNodeState {
    /// The name of the state.
    pub fn name(&self) -> (name: &'static str)
        ensures
            name@ == state_name(*self),
    {
        match self {
            MemberNodeState::Alive => "Alive",
            MemberNodeState::Suspected => "Suspected",
            MemberNodeState::Failed => "Failed",
        }
    }
}

/// The view with `host` added as `Alive` if it was unknown, and unchanged otherwise.
pub open spec fn with_member(
    members: Map<u16, MemberNodeState>,
    host: u16,
) -> Map<u16, MemberNodeState> {
    if members.contains_key(host) {
        members
    } else {
        members.insert(host, MemberNodeState::Alive)
    }
}

/// The view after `host` was reported as `state`: a peer that is suspected a
/// second time has failed, any other report replaces what was known, and a
/// report on an unknown host changes nothing.
pub open spec fn with_state(
    members: Map<u16, MemberNodeState>,
    host: u16,
    state: MemberNodeState,
) -> Map<u16, MemberNodeState> {
    if !members.contains_key(host) {
        members
    } else if state == MemberNodeState::Suspected && members[host] == MemberNodeState::Suspected {
        members.insert(host, MemberNodeState::Failed)
    } else {
        members.insert(host, state)
    }
}

/// The view after the view `other` of a peer was merged into it. What `other`
/// says of a host replaces what was known, except that a host that `other` holds
/// as `Failed` leaves the view, and that `other` is not heard on `self_id`, the
/// host of the node that owns the view.
pub open spec fn merged(
    members: Map<u16, MemberNodeState>,
    self_id: u16,
    other: Map<u16, MemberNodeState>,
) -> Map<u16, MemberNodeState> {
    Map::new(
        |host: u16|
            if other.contains_key(host) && host != self_id {
                other[host] != MemberNodeState::Failed
            } else {
                members.contains_key(host)
            },
        |host: u16|
            if other.contains_key(host) && host != self_id {
                other[host]
            } else {
                members[host]
            },
    )
}

/// Whether a peer in `state` can be chosen: as the target of a probe when it has
/// not failed, as a witness only when it is alive.
pub open spec fn eligible(state: MemberNodeState, as_target: bool) -> bool {
    state == MemberNodeState::Alive || (as_target && state == MemberNodeState::Suspected)
}

/// The hosts of a view that can be chosen as the target of a probe or as a witness.
pub open spec fn eligible_hosts(members: Map<u16, MemberNodeState>, as_target: bool) -> Set<u16> {
    Set::new(|host: u16| members.contains_key(host) && eligible(members[host], as_target))
}

/// Whether `nodes` can come out of a draw of up to `number` witnesses from a
/// view: they are alive in it, none is drawn twice, and as many are drawn as
/// were asked for, or all the alive hosts where there are fewer.
pub open spec fn is_witness_draw(
    members: Map<u16, MemberNodeState>,
    number: nat,
    nodes: Seq<u16>,
) -> bool {
    let alive = eligible_hosts(members, false);
    &&& nodes.no_duplicates()
    &&& forall|i: int| 0 <= i < nodes.len() ==> alive.contains(#[trigger] nodes[i])
    &&& nodes.len() == if number <= alive.len() {
        number
    } else {
        alive.len()
    }
}

/// What a listing says of one host: the host, a dash, its state and a semicolon.
pub open spec fn listed(host: u16, state: MemberNodeState) -> Seq<char> {
    decimal(host as nat) + " - "@ + state_name(state) + "; "@
}

/// The listing of the hosts `hosts` of a view, one after the other.
pub open spec fn listing(members: Map<u16, MemberNodeState>, hosts: Seq<u16>) -> Seq<char>
    decreases hosts.len(),
{
    if hosts.len() == 0 {
        Seq::empty()
    } else {
        listing(members, hosts.drop_last()) + listed(hosts.last(), members[hosts.last()])
    }
}

/// A reordering of a sequence without duplicates has none, is as long, and has
/// the same elements.
proof fn lemma_reordered<T>(before: Seq<T>, after: Seq<T>)
    requires
        before.no_duplicates(),
        before.to_multiset() == after.to_multiset(),
    ensures
        after.no_duplicates(),
        after.len() == before.len(),
        forall|x: T| before.contains(x) <==> after.contains(x),
{
    before.lemma_multiset_has_no_duplicates();
    after.lemma_multiset_has_no_duplicates_conv();
    vstd::seq_lib::to_multiset_len(before);
    vstd::seq_lib::to_multiset_len(after);
    assert forall|x: T| before.contains(x) <==> after.contains(x) by {
        vstd::seq_lib::to_multiset_contains(before, x);
        vstd::seq_lib::to_multiset_contains(after, x);
    }
}

/// A node's view of its peers: the last known liveness of every host it has heard of.
#[derive(Debug)]
pub struct MemberNodesRegistry {
    members: HashMap<u16, MemberNodeState>,
}

impl View for MemberNodesRegistry {
    type V = Map<u16, MemberNodeState>;

    closed spec fn view(&self) -> Map<u16, MemberNodeState> {
        self.members@
    }
}

impl Clone for MemberNodesRegistry {
    fn clone(&self) -> (copy: Self)
        ensures
            copy@ == self@,
    {
        MemberNodesRegistry { members: self.members.clone() }
    }
}

impl MemberNodesRegistry {
    /// A view that holds no host.
    pub fn new() -> (registry: Self)
        ensures
            registry@ == Map::<u16, MemberNodeState>::empty(),
    {
        MemberNodesRegistry { members: HashMap::new() }
    }

    /// Takes `host` into the view as alive, unless the view holds it already.
    pub fn add(&mut self, host: u16)
        ensures
            final(self)@ == with_member(old(self)@, host),
    {
        if !self.members.contains_key(&host) {
            self.members.insert(host, MemberNodeState::Alive);
        }
    }

    /// Merges the view `members` of a peer into this view, which belongs to the
    /// node of `self_id`.
    pub fn add_all(&mut self, self_id: u16, members: &MemberNodesRegistry)
        ensures
            final(self)@ == merged(old(self)@, self_id, members@),
    {
        let ghost keys = spec_keys_iter(&members.members).remaining().unref();
        for host in it: members.members.keys()
            invariant
                it.seq().unref() == keys,
                keys.to_set() == members@.dom(),
                self@ == merged(
                    old(self)@,
                    self_id,
                    members@.restrict(keys.take(it.index()).to_set()),
                ),
        {
            proof {
                assert(keys.take(it.index() + 1) =~= keys.take(it.index()).push(*host));
                keys.take(it.index()).lemma_push_to_set_commute(*host);
            }
            if *host != self_id {
                match members.members.get(host) {
                    Some(state) => {
                        if *state == MemberNodeState::Failed {
                            self.members.remove(host);
                        } else {
                            self.members.insert(*host, *state);
                        }
                    },
                    None => {},
                }
            }
        }
        proof {
            assert(keys.take(keys.len() as int) =~= keys);
        }
    }

    /// Takes note that `host` was found in `state`. A second suspicion in a row
    /// makes a failure; nothing is noted of a host that the view does not hold.
    pub fn set_node_state(&mut self, host: u16, state: MemberNodeState)
        ensures
            final(self)@ == with_state(old(self)@, host, state),
    {
        match self.members.get(&host) {
            Some(m) => {
                if state == MemberNodeState::Suspected && *m == MemberNodeState::Suspected {
                    self.members.insert(host, MemberNodeState::Failed);
                } else {
                    self.members.insert(host, state);
                }
            },
            None => {},
        };
    }

    /// A host drawn at random among those that have not failed, if there is one.
    pub fn get_random_node(&self) -> (node: Option<&u16>)
        ensures
            match node {
                Some(host) => eligible_hosts(self@, true).contains(*host),
                None => eligible_hosts(self@, true) == Set::<u16>::empty(),
            },
    {
        let members = self.candidates(true);
        if members.is_empty() {
            None
        } else {
            let mut rng = rand::thread_rng();
            let random_index = random_index(&mut rng, members.len());
            let random_node = members[random_index];
            proof {
                assert(members@.unref()[random_index as int] == *random_node);
            }
            Some(random_node)
        }
    }

    /// Up to `number` hosts drawn at random, without repetition, among those that
    /// are alive.
    pub fn get_random_nodes(&self, number: usize) -> (nodes: Vec<u16>)
        ensures
            is_witness_draw(self@, number as nat, nodes@),
    {
        let mut members = self.candidates(false);
        let ghost drawn_from = members@;
        let mut rng = rand::thread_rng();
        shuffle(&mut rng, &mut members);
        proof {
            lemma_reordered(drawn_from, members@);
            drawn_from.unref().unique_seq_to_set();
        }
        let mut nodes: Vec<u16> = Vec::new();
        let mut i: usize = 0;
        while i < members.len() && i < number
            invariant
                i <= members.len(),
                i <= number,
                nodes@.len() == i,
                forall|j: int| 0 <= j < i ==> nodes@[j] == *members@[j],
            decreases members.len() - i,
        {
            nodes.push(*members[i]);
            i += 1;
        }
        proof {
            assert forall|j: int| 0 <= j < nodes@.len() implies eligible_hosts(
                self@,
                false,
            ).contains(#[trigger] nodes@[j]) by {
                assert(drawn_from.contains(members@[j]));
                let k = choose|k: int| 0 <= k < drawn_from.len() && drawn_from[k] == members@[j];
                assert(drawn_from.unref()[k] == nodes@[j]);
            }
        }
        nodes
    }

    /// The hosts that can be chosen, each once.
    fn candidates(&self, as_target: bool) -> (hosts: Vec<&u16>)
        ensures
            hosts@.no_duplicates(),
            hosts@.unref().to_set() == eligible_hosts(self@, as_target),
    {
        let mut hosts: Vec<&u16> = Vec::new();
        let ghost keys = spec_keys_iter(&self.members).remaining();
        for host in it: self.members.keys()
            invariant
                it.seq() == keys,
                keys.no_duplicates(),
                keys.unref().to_set() == self@.dom(),
                hosts@.no_duplicates(),
                forall|j: int|
                    0 <= j < hosts@.len() ==> eligible_hosts(self@, as_target).contains(
                        *#[trigger] hosts@[j],
                    ) && keys.take(it.index()).contains(hosts@[j]),
                forall|k: int|
                    0 <= k < it.index() && eligible_hosts(self@, as_target).contains(
                        *#[trigger] keys[k],
                    ) ==> hosts@.contains(keys[k]),
        {
            let ghost before = hosts@;
            proof {
                assert forall|j: int| 0 <= j < before.len() implies keys.take(
                    it.index() + 1,
                ).contains(#[trigger] before[j]) && before[j] != host by {
                    let k = choose|k: int|
                        0 <= k < it.index() && keys.take(it.index())[k] == before[j];
                    assert(keys.take(it.index() + 1)[k] == before[j]);
                }
            }
            if self.is_host_eligible(host, as_target) {
                hosts.push(host);
                proof {
                    assert(keys.take(it.index() + 1)[it.index()] == host);
                    assert forall|k: int|
                        0 <= k <= it.index() && eligible_hosts(self@, as_target).contains(
                            *#[trigger] keys[k],
                        ) implies hosts@.contains(keys[k]) by {
                        if k < it.index() {
                            let j = choose|j: int| 0 <= j < before.len() && before[j] == keys[k];
                            assert(hosts@[j] == keys[k]);
                        } else {
                            assert(hosts@[before.len() as int] == keys[k]);
                        }
                    }
                }
            }
        }
        proof {
            assert forall|h: u16| hosts@.unref().to_set().contains(h) <==> eligible_hosts(
                self@,
                as_target,
            ).contains(h) by {
                if hosts@.unref().to_set().contains(h) {
                    let j = choose|j: int| 0 <= j < hosts@.unref().len() && hosts@.unref()[j] == h;
                    assert(eligible_hosts(self@, as_target).contains(*hosts@[j]));
                }
                if eligible_hosts(self@, as_target).contains(h) {
                    let k = choose|k: int| 0 <= k < keys.unref().len() && keys.unref()[k] == h;
                    let j = choose|j: int| 0 <= j < hosts@.len() && hosts@[j] == keys[k];
                    assert(hosts@.unref()[j] == h);
                }
            }
        }
        hosts
    }

    /// Whether `host`, which the view holds, can be chosen.
    fn is_host_eligible(&self, host: &u16, as_target: bool) -> (yes: bool)
        requires
            self@.contains_key(*host),
        ensures
            yes == eligible(self@[*host], as_target),
    {
        if as_target {
            self.is_host_not_failed(&host)
        } else {
            *self.members.get(host).unwrap() == MemberNodeState::Alive
        }
    }

    /// Whether `host`, which the view holds, is not held failed.
    fn is_host_not_failed(&self, host: &&u16) -> (yes: bool)
        requires
            self@.contains_key(**host),
        ensures
            yes == (self@[**host] != MemberNodeState::Failed),
    {
        *self.members.get(host).unwrap() != MemberNodeState::Failed
    }

    /// Whether the view holds no host.
    pub fn is_empty(&self) -> (empty: bool)
        ensures
            empty == (self@ == Map::<u16, MemberNodeState>::empty()),
    {
        proof {
            if self@.dom() =~= Set::<u16>::empty() {
                assert(self@ =~= Map::<u16, MemberNodeState>::empty());
            }
        }
        self.members.is_empty()
    }

    /// The hosts of the view, each once, in the order in which the map hands them out.
    pub fn hosts(&self) -> (hosts: Vec<u16>)
        ensures
            hosts@.no_duplicates(),
            hosts@.to_set() == self@.dom(),
    {
        let mut hosts: Vec<u16> = Vec::new();
        let ghost keys = spec_keys_iter(&self.members).remaining();
        for host in it: self.members.keys()
            invariant
                it.seq() == keys,
                hosts@.len() == it.index(),
                forall|i: int| 0 <= i < hosts@.len() ==> hosts@[i] == *keys[i],
        {
            hosts.push(*host);
        }
        proof {
            assert(hosts@ =~= keys.unref());
        }
        hosts
    }

    /// A listing of the view for a reader: every host once with its state, in the
    /// order in which the map hands the hosts out.
    pub fn describe(&self) -> (text: String)
        ensures
            exists|hosts: Seq<u16>|
                hosts.no_duplicates() && hosts.to_set() == self@.dom() && text@ == #[trigger] listing(
                    self@,
                    hosts,
                ),
    {
        let hosts = self.hosts();
        let mut text = String::new();
        let mut i: usize = 0;
        while i < hosts.len()
            invariant
                i <= hosts.len(),
                hosts@.to_set() == self@.dom(),
                text@ == listing(self@, hosts@.take(i as int)),
            decreases hosts.len() - i,
        {
            proof {
                assert(hosts@.take(i + 1).drop_last() =~= hosts@.take(i as int));
            }
            let state = *self.members.get(&hosts[i]).unwrap();
            push_decimal(&mut text, hosts[i]);
            text.append(" - ");
            text.append(state.name());
            text.append("; ");
            i += 1;
        }
        proof {
            assert(hosts@.take(hosts@.len() as int) =~= hosts@);
        }
        text
    }

    /// What the view holds of `host`, if it holds it.
    pub fn get_state_for(&self, host: u16) -> (state: Option<&MemberNodeState>)
        ensures
            match state {
                Some(s) => self@.contains_key(host) && *s == self@[host],
                None => !self@.contains_key(host),
            },
    {
        self.members.get(&host)
    }
}

/// What a node is at one moment: its host, its own liveness and its view of its
/// peers. This is what a node says of itself in the messages it sends.
pub struct MemberNodeView {
    pub host: u16,
    pub state: MemberNodeState,
    pub members: Map<u16, MemberNodeState>,
}

/// The name under which the node of `host` goes.
pub open spec fn node_name(host: u16) -> Seq<char> {
    "node-"@ + decimal(host as nat)
}

/// The identity, the liveness and the view of one node, held by value: the state
/// that the node itself works on, and the copy of it that travels in messages.
pub struct MemberNodeDetails {
    host: u16,
    state: MemberNodeState,
    members: MemberNodesRegistry,
}

impl View for MemberNodeDetails {
    type V = MemberNodeView;

    closed spec fn view(&self) -> MemberNodeView {
        MemberNodeView { host: self.host, state: self.state, members: self.members@ }
    }
}

impl DeepView for MemberNodeDetails {
    type V = MemberNodeView;

    open spec fn deep_view(&self) -> MemberNodeView {
        self@
    }
}

impl Clone for MemberNodeDetails {
    fn clone(&self) -> (copy: Self)
        ensures
            copy@ == self@,
    {
        self.serialize()
    }
}

impl MemberNodeDetails {
    /// The details of a node that holds itself alive and knows nobody.
    pub fn new(host: u16) -> (details: Self)
        ensures
            details@ == (MemberNodeView {
                host,
                state: MemberNodeState::Alive,
                members: Map::<u16, MemberNodeState>::empty(),
            }),
    {
        MemberNodeDetails { host, state: MemberNodeState::Alive, members: MemberNodesRegistry::new() }
    }

    /// The host of the node.
    pub fn host(&self) -> (host: u16)
        ensures
            host == self@.host,
    {
        self.host
    }

    /// The name of the node: `node-` and its host in decimal.
    pub fn name(&self) -> (name: String)
        ensures
            name@ == node_name(self@.host),
    {
        let mut name = String::from_str("node-");
        push_decimal(&mut name, self.host);
        name
    }

    /// The liveness that the node holds of itself.
    pub fn state(&self) -> (state: &MemberNodeState)
        ensures
            *state == self@.state,
    {
        &self.state
    }

    /// The node's view of its peers.
    pub fn members(&self) -> (members: &MemberNodesRegistry)
        ensures
            members@ == self@.members,
    {
        &self.members
    }

    /// Sets the liveness that the node holds of itself.
    pub fn change_state(&mut self, state: MemberNodeState)
        ensures
            final(self)@ == (MemberNodeView { state, ..old(self)@ }),
    {
        self.state = state
    }

    /// A copy of the details that shares nothing with them.
    pub fn serialize(&self) -> (copy: MemberNodeDetails)
        ensures
            copy@ == self@,
    {
        let mut new_members: HashMap<u16, MemberNodeState> = HashMap::new();
        let members = &self.members.members;
        let ghost keys = spec_keys_iter(members).remaining().unref();
        for host in it: members.keys()
            invariant
                it.seq().unref() == keys,
                keys.to_set() == members@.dom(),
                new_members@ == members@.restrict(keys.take(it.index()).to_set()),
        {
            proof {
                assert(keys.take(it.index() + 1) =~= keys.take(it.index()).push(*host));
                keys.take(it.index()).lemma_push_to_set_commute(*host);
            }
            match members.get(host) {
                Some(state) => {
                    new_members.insert(*host, *state);
                },
                None => {},
            }
        }
        proof {
            assert(keys.take(keys.len() as int) =~= keys);
            assert(members@.restrict(members@.dom()) =~= members@);
        }
        MemberNodeDetails {
            host: self.host,
            state: self.state.clone(),
            members: MemberNodesRegistry { members: new_members },
        }
    }
}

/// What a router needs of a node that it has brought up.
pub trait MemberNode {
    /// The host of the node.
    fn host(&self) -> u16;

    /// A copy of the node's details as they are now.
    fn serialize_host_details(&self) -> MemberNodeDetails;
}

/// One node of the cluster: its details, and what it does on each message that
/// reaches it and on each tick of its prober. The node sends nothing itself: it
/// hands the messages that are to go out to its caller, each with its destination.
pub struct DefaultMemberNode {
    details: MemberNodeDetails,
    terminated: bool,
}

impl View for DefaultMemberNode {
    type V = NodeView;

    closed spec fn view(&self) -> NodeView {
        NodeView { details: self.details@, terminated: self.terminated }
    }
}

impl DefaultMemberNode {
    /// A running node that holds itself alive and knows nobody.
    pub fn new(host: u16) -> (node: Self)
        ensures
            node@ == (NodeView { details: MemberNodeView::fresh(host), terminated: false }),
    {
        DefaultMemberNode { details: MemberNodeDetails::new(host), terminated: false }
    }

    /// The node's details as they are now.
    pub fn details(&self) -> (details: &MemberNodeDetails)
        ensures
            details@ == self@.details,
    {
        &self.details
    }

    /// Sets the liveness that the node holds of itself.
    pub fn change_state(&mut self, state: MemberNodeState)
        ensures
            final(self)@ == (NodeView {
                details: MemberNodeView { state, ..old(self)@.details },
                ..old(self)@
            }),
    {
        self.details.change_state(state);
    }

    /// Whether the node has handled a `Shutdown`.
    pub fn is_terminated(&self) -> (terminated: bool)
        ensures
            terminated == self@.terminated,
    {
        self.terminated
    }

    /// Whether the node holds itself alive.
    fn is_alive(&self) -> (alive: bool)
        ensures
            alive == (self@.details.state == MemberNodeState::Alive),
    {
        *self.details.state() == MemberNodeState::Alive
    }

    /// Up to `number` peers drawn at random, without repetition, among those that
    /// the node holds alive. The node itself is not among them unless its view
    /// holds it.
    fn get_random_nodes(&self, number: usize) -> (nodes: Vec<u16>)
        ensures
            is_witness_draw(self@.details.members, number as nat, nodes@),
            self@.details.knows_only_peers() ==> !nodes@.contains(self@.details.host),
    {
        self.details.members.get_random_nodes(number)
    }

    /// Takes `host` into the node's view as alive, unless the view holds it.
    fn add_member_node(&mut self, host: u16)
        ensures
            final(self)@ == old(self)@.with_members(with_member(old(self)@.details.members, host)),
    {
        self.details.members.add(host);
    }

    /// Merges the view `members` of a peer into the node's view.
    fn add_member_nodes(&mut self, members: &MemberNodesRegistry)
        ensures
            final(self)@ == old(self)@.with_members(
                merged(old(self)@.details.members, old(self)@.details.host, members@),
            ),
    {
        self.details.members.add_all(self.details.host, members);
    }

    /// A peer drawn at random among those that the node does not hold failed, if
    /// there is one.
    fn get_random_node(&self) -> (node: Option<&u16>)
        ensures
            match node {
                Some(host) => eligible_hosts(self@.details.members, true).contains(*host),
                None => eligible_hosts(self@.details.members, true) == Set::<u16>::empty(),
            },
    {
        self.details.members.get_random_node()
    }

    /// Takes note that the peer `member_node_id` was found in `state`.
    fn set_member_node_state(&mut self, member_node_id: u16, state: MemberNodeState)
        ensures
            final(self)@ == old(self)@.with_members(
                with_state(old(self)@.details.members, member_node_id, state),
            ),
    {
        self.details.members.set_node_state(member_node_id, state);
    }

    /// A copy of the node's details as they are now.
    fn serialize(&self) -> (copy: MemberNodeDetails)
        ensures
            copy@ == self@.details,
    {
        self.details.serialize()
    }

    /// One request to each of `witnesses` to probe `suspect` on behalf of this node.
    pub fn probe_requests(&self, witnesses: &Vec<u16>, suspect: u16) -> (requests: Vec<
        (u16, Message),
    >)
        ensures
            requests.deep_view() == probe_requests_to(witnesses@, self@.details, suspect),
    {
        let mut requests: Vec<(u16, Message)> = Vec::new();
        let mut i: usize = 0;
        while i < witnesses.len()
            invariant
                i <= witnesses.len(),
                requests@.len() == i,
                forall|j: int|
                    0 <= j < i ==> (#[trigger] requests@[j]).0 == witnesses@[j] && requests@[j].1@
                        == MessageView::ProbeRequest(self@.details, suspect),
            decreases witnesses.len() - i,
        {
            requests.push((witnesses[i], Message::ProbeRequest(self.serialize(), suspect)));
            i += 1;
        }
        requests
    }

    /// Handles one message: brings the node's view up to date and returns the
    /// messages that the node sends in answer, each with the host it goes to. A
    /// node that has been shut down does nothing.
    ///
    /// The one thing that the message does not decide is which witnesses the node
    /// asks when its own probe of a peer has timed out: the hosts that the
    /// requests go to are a draw among the peers that the node then holds alive.
    /// Unless the message is a greeting in the node's own name, a view that held
    /// peers only still does.
    pub fn handle(&mut self, message: Message) -> (outbound: Vec<(u16, Message)>)
        ensures
            final(self)@ == next_state(old(self)@, message@),
            outbound.deep_view() == replies(
                old(self)@,
                message@,
                recipients(outbound.deep_view()),
            ),
            draws_witnesses(old(self)@, message@) ==> is_witness_draw(
                final(self)@.details.members,
                NUMBER_RANDOM_PROBE_NODES as nat,
                recipients(outbound.deep_view()),
            ),
            old(self)@.details.knows_only_peers() && !is_greeting_from(
                message@,
                old(self)@.details.host,
            ) ==> final(self)@.details.knows_only_peers(),
    {
        let mut outbound: Vec<(u16, Message)> = Vec::new();
        if self.terminated {
            return outbound;
        }
        match message {
            Message::Request(from, _data) => {
                self.add_member_node(from.host());
                outbound.push(
                    (from.host(), Message::Response(self.serialize(), String::from_str("hi"))),
                );
            },
            Message::Response(from, _data) => {
                self.add_member_node(from.host());
            },
            Message::Ping(from, probing_node) => {
                self.add_member_nodes(from.members());
                outbound.push(
                    (
                        from.host(),
                        Message::PingResponse(self.details.host(), probing_node, !self.is_alive()),
                    ),
                );
            },
            Message::PingResponse(from, probing_node, is_timed_out) => {
                match probing_node {
                    Some(n) => {
                        outbound.push((n.host(), Message::ProbeResponse(from, is_timed_out)));
                    },
                    None => {
                        if is_timed_out {
                            self.set_member_node_state(from, MemberNodeState::Suspected);
                            let witnesses = self.get_random_nodes(NUMBER_RANDOM_PROBE_NODES);
                            outbound = self.probe_requests(&witnesses, from);
                        } else {
                            self.set_member_node_state(from, MemberNodeState::Alive);
                        }
                    },
                }
            },
            Message::ProbeRequest(from, timed_out_node) => {
                outbound.push((timed_out_node, Message::Ping(self.serialize(), Some(from))));
            },
            Message::ProbeResponse(from, is_timed_out) => {
                if !is_timed_out {
                    self.set_member_node_state(from, MemberNodeState::Alive);
                }
            },
            Message::Shutdown() => {
                self.terminated = true;
            },
        }
        outbound
    }

    /// One tick of the prober: the ping that the node sends, with the peer it goes
    /// to, drawn at random among the peers that the node does not hold failed. A
    /// node that is shut down or holds itself failed sends none, nor does one that
    /// knows no such peer.
    pub fn tick(&self) -> (ping: Option<(u16, Message)>)
        ensures
            match ping {
                Some((target, message)) => {
                    &&& self@.probes()
                    &&& eligible_hosts(self@.details.members, true).contains(target)
                    &&& message@ == MessageView::Ping(self@.details, None)
                },
                None => !self@.probes() || eligible_hosts(self@.details.members, true)
                    == Set::<u16>::empty(),
            },
    {
        if self.terminated || *self.details.state() == MemberNodeState::Failed {
            return None;
        }
        match self.get_random_node() {
            Some(m_id) => Some((*m_id, Message::Ping(self.serialize(), None))),
            None => None,
        }
    }
}

impl MemberNode for DefaultMemberNode {
    fn host(&self) -> (host: u16)
        ensures
            host == self@.details.host,
    {
        self.details.host()
    }

    fn serialize_host_details(&self) -> (copy: MemberNodeDetails)
        ensures
            copy@ == self@.details,
    {
        self.serialize()
    }
}

} // verus!
