//! The gossip dispatcher: what a node does about what reaches it from the
//! network.
//!
//! Messages on the topic carry no tag that tells their kind. A payload is read
//! as a response first and as a request second, and the first reading that
//! succeeds decides what it is. The dispatcher works on those readings, on the
//! identifiers of the peers that discovery reports, and on nothing else: it can
//! be driven without a network.

use vstd::prelude::*;
use crate::models::peer::{Peer, PeerView};
use crate::requests::list_request::{PeerListMode, PeerListModeView};
use crate::requests::list_request::{PeerListRequest, PeerListRequestView};
use crate::responses::list_response::{ListEventType, ListEventTypeView};
use crate::responses::list_response::{ListResponse, ListResponseView};

verus! {

/// The two readings of a payload that arrived on the topic.
#[derive(Debug)]
pub struct Payload {
    /// The payload read as a status response, where it can be read so.
    pub as_response: Option<ListResponse>,
    /// The payload read as a status request, where it can be read so.
    pub as_request: Option<PeerListRequest>,
}

/// The mathematical value of a [`Payload`].
pub struct PayloadView {
    pub as_response: Option<ListResponseView>,
    pub as_request: Option<PeerListRequestView>,
}

impl View for Payload {
    type V = PayloadView;

    open spec fn view(&self) -> PayloadView {
        PayloadView {
            as_response: self.as_response.deep_view(),
            as_request: self.as_request.deep_view(),
        }
    }
}

/// What the gossip layer reports.
#[derive(Debug)]
pub enum GossipEvent {
    /// A message was delivered on the topic.
    Message {
        /// Identifier of the node that published it.
        source: String,
        /// What it holds.
        payload: Payload,
    },
    /// Anything else, such as a peer joining or leaving the topic.
    Other,
}

/// The mathematical value of a [`GossipEvent`].
pub enum GossipEventView {
    Message { source: Seq<char>, payload: PayloadView },
    Other,
}

impl View for GossipEvent {
    type V = GossipEventView;

    open spec fn view(&self) -> GossipEventView {
        match self {
            GossipEvent::Message { source, payload } => GossipEventView::Message {
                source: source@,
                payload: payload@,
            },
            GossipEvent::Other => GossipEventView::Other,
        }
    }
}

/// What the dispatcher wants done about a gossip event.
#[derive(Debug)]
pub enum Reaction {
    /// Hand this to the node actor, which files it in the directory.
    Deliver(ListEventType),
    /// Publish this answer on the topic.
    Publish(ListResponse),
    /// Do nothing.
    Ignore,
}

/// The mathematical value of a [`Reaction`].
pub enum ReactionView {
    Deliver(ListEventTypeView),
    Publish(ListResponseView),
    Ignore,
}

impl View for Reaction {
    type V = ReactionView;

    open spec fn view(&self) -> ReactionView {
        match self {
            Reaction::Deliver(event) => ReactionView::Deliver(event@),
            Reaction::Publish(response) => ReactionView::Publish(response@),
            Reaction::Ignore => ReactionView::Ignore,
        }
    }
}

impl PartialEq for Reaction {
    fn eq(&self, other: &Self) -> (equal: bool) {
        match (self, other) {
            (Reaction::Deliver(a), Reaction::Deliver(b)) => *a == *b,
            (Reaction::Publish(a), Reaction::Publish(b)) => *a == *b,
            (Reaction::Ignore, Reaction::Ignore) => true,
            _ => false,
        }
    }
}

impl Eq for Reaction {

}

impl vstd::std_specs::cmp::PartialEqSpecImpl for Reaction {
    open spec fn obeys_eq_spec() -> bool {
        true
    }

    open spec fn eq_spec(&self, other: &Self) -> bool {
        self@ == other@
    }
}

/// What local discovery reports. Peers are given by their identifiers.
#[derive(Debug)]
pub enum DiscoveryEvent {
    /// These peers have appeared on the local network.
    Discovered(Vec<String>),
    /// The records that announced these peers have run out.
    Expired(Vec<String>),
}

/// The mathematical value of a [`DiscoveryEvent`].
pub enum DiscoveryEventView {
    Discovered(Seq<Seq<char>>),
    Expired(Seq<Seq<char>>),
}

impl View for DiscoveryEvent {
    type V = DiscoveryEventView;

    open spec fn view(&self) -> DiscoveryEventView {
        match self {
            DiscoveryEvent::Discovered(peers) => DiscoveryEventView::Discovered(peers.deep_view()),
            DiscoveryEvent::Expired(peers) => DiscoveryEventView::Expired(peers.deep_view()),
        }
    }
}

/// A change to the partial view: the peers to whom the node's gossip is
/// forwarded.
#[derive(Debug)]
pub enum ViewChange {
    /// Take the peer into the partial view.
    Add(String),
    /// Take the peer out of the partial view.
    Remove(String),
}

/// The mathematical value of a [`ViewChange`].
pub enum ViewChangeView {
    Add(Seq<char>),
    Remove(Seq<char>),
}

impl View for ViewChange {
    type V = ViewChangeView;

    open spec fn view(&self) -> ViewChangeView {
        match self {
            ViewChange::Add(peer) => ViewChangeView::Add(peer@),
            ViewChange::Remove(peer) => ViewChangeView::Remove(peer@),
        }
    }
}

impl DeepView for ViewChange {
    type V = ViewChangeView;

    open spec fn deep_view(&self) -> ViewChangeView {
        self@
    }
}

impl PartialEq for ViewChange {
    fn eq(&self, other: &Self) -> (equal: bool) {
        match (self, other) {
            (ViewChange::Add(a), ViewChange::Add(b)) => *a == *b,
            (ViewChange::Remove(a), ViewChange::Remove(b)) => *a == *b,
            _ => false,
        }
    }
}

impl Eq for ViewChange {

}

impl vstd::std_specs::cmp::PartialEqSpecImpl for ViewChange {
    open spec fn obeys_eq_spec() -> bool {
        true
    }

    open spec fn eq_spec(&self, other: &Self) -> bool {
        self@ == other@
    }
}

/// The part of a node that answers the network: who the node is and what it
/// says of itself.
#[derive(Debug)]
pub struct PeerStatusBehaviour {
    /// Free text the node reports in its status record.
    pub description: String,
    /// The node's own identifier.
    pub peer_id: String,
}

/// The mathematical value of a [`PeerStatusBehaviour`].
pub struct PeerStatusBehaviourView {
    pub description: Seq<char>,
    pub peer_id: Seq<char>,
}

impl View for PeerStatusBehaviour {
    type V = PeerStatusBehaviourView;

    open spec fn view(&self) -> PeerStatusBehaviourView {
        PeerStatusBehaviourView { description: self.description@, peer_id: self.peer_id@ }
    }
}

/// The answer that the node `peer_id`, running on `hostname`, gives to the
/// node `receiver`.
pub open spec fn status_response(
    receiver: Seq<char>,
    peer_id: Seq<char>,
    hostname: Seq<char>,
    description: Seq<char>,
) -> ListResponseView {
    ListResponseView {
        mode: PeerListModeView::All,
        data: PeerView { id: peer_id, hostname, description },
        receiver,
    }
}

/// Whether `event` is a status request that `node` has to answer: a message
/// that does not read as a response, reads as a request, and is meant for
/// everyone or for `node` by name.
pub open spec fn owes_answer(node: PeerStatusBehaviourView, event: GossipEventView) -> bool {
    match event {
        GossipEventView::Message { source, payload } => payload.as_response is None && (
        match payload.as_request {
            Some(request) => request.mode.targets(node.peer_id),
            None => false,
        }),
        GossipEventView::Other => false,
    }
}

/// What `node` does about `event` when its host name is `hostname` (`None`
/// where the machine's name is no text).
///
/// - A response meant for `node` goes to the actor; one meant for another node
///   is dropped.
/// - A request that `node` has to answer is answered to its sender, with the
///   node's own record; without a host name there is no record to send.
/// - Anything else is dropped.
pub open spec fn reaction_to(
    node: PeerStatusBehaviourView,
    event: GossipEventView,
    hostname: Option<Seq<char>>,
) -> ReactionView {
    match event {
        GossipEventView::Message { source, payload } => match payload.as_response {
            Some(response) => if response.receiver == node.peer_id {
                ReactionView::Deliver(ListEventTypeView::Response(response))
            } else {
                ReactionView::Ignore
            },
            None => if owes_answer(node, event) && hostname is Some {
                ReactionView::Publish(
                    status_response(source, node.peer_id, hostname->0, node.description),
                )
            } else {
                ReactionView::Ignore
            },
        },
        GossipEventView::Other => ReactionView::Ignore,
    }
}

/// The test that a peer is not among `discovered`.
pub open spec fn not_among(discovered: Seq<Seq<char>>) -> spec_fn(Seq<char>) -> bool {
    |peer: Seq<char>| !discovered.contains(peer)
}

/// The changes to the partial view that `event` calls for, while discovery
/// reports the peers `discovered` as live.
///
/// Every peer that appeared is added. A peer that expired is removed, unless
/// discovery still reports it: a peer seen through two sources stays while one
/// of them sees it.
pub open spec fn membership_changes(
    event: DiscoveryEventView,
    discovered: Seq<Seq<char>>,
) -> Seq<ViewChangeView> {
    match event {
        DiscoveryEventView::Discovered(peers) => Seq::new(
            peers.len(),
            |i: int| ViewChangeView::Add(peers[i]),
        ),
        DiscoveryEventView::Expired(peers) => {
            let gone = peers.filter(not_among(discovered));
            Seq::new(gone.len(), |i: int| ViewChangeView::Remove(gone[i]))
        },
    }
}

/// The partial view `members` after `changes` were applied to it, first to
/// last.
pub open spec fn partial_view_after(
    members: Set<Seq<char>>,
    changes: Seq<ViewChangeView>,
) -> Set<Seq<char>>
    decreases changes.len(),
{
    if changes.len() == 0 {
        members
    } else {
        let earlier = partial_view_after(members, changes.drop_last());
        match changes.last() {
            ViewChangeView::Add(peer) => earlier.insert(peer),
            ViewChangeView::Remove(peer) => earlier.remove(peer),
        }
    }
}

/// A request addressed by name to another node is never answered: whatever
/// the machine is called, nothing is published about it.
pub proof fn lemma_request_for_another_is_not_answered(
    node: PeerStatusBehaviourView,
    source: Seq<char>,
    payload: PayloadView,
    wanted: Seq<char>,
    hostname: Option<Seq<char>>,
)
    requires
        payload.as_request == Some(PeerListRequestView { mode: PeerListModeView::One(wanted) }),
        wanted != node.peer_id,
    ensures
        !(reaction_to(node, GossipEventView::Message { source, payload }, hostname)
            is Publish),
{
}

/// A response meant for another node is dropped: it is neither handed to the
/// actor nor answered.
pub proof fn lemma_response_for_another_is_dropped(
    node: PeerStatusBehaviourView,
    source: Seq<char>,
    payload: PayloadView,
    hostname: Option<Seq<char>>,
)
    requires
        payload.as_response matches Some(response) && response.receiver != node.peer_id,
    ensures
        reaction_to(node, GossipEventView::Message { source, payload }, hostname)
            == ReactionView::Ignore,
{
}

/// A payload that reads neither as a response nor as a request is dropped:
/// nothing is handed to the actor and nothing is published.
pub proof fn lemma_unreadable_payload_is_dropped(
    node: PeerStatusBehaviourView,
    source: Seq<char>,
    hostname: Option<Seq<char>>,
)
    ensures
        reaction_to(
            node,
            GossipEventView::Message {
                source,
                payload: PayloadView { as_response: None, as_request: None },
            },
            hostname,
        ) == ReactionView::Ignore,
{
}

/// Removals take out of a partial view the peers they name, and no others.
proof fn lemma_removals_applied(members: Set<Seq<char>>, gone: Seq<Seq<char>>, peer: Seq<char>)
    ensures
        partial_view_after(
            members,
            Seq::new(gone.len(), |i: int| ViewChangeView::Remove(gone[i])),
        ).contains(peer) <==> members.contains(peer) && !gone.contains(peer),
    decreases gone.len(),
{
    let changes = Seq::new(gone.len(), |i: int| ViewChangeView::Remove(gone[i]));
    if gone.len() > 0 {
        let earlier = gone.drop_last();
        assert(changes.drop_last() =~= Seq::new(
            earlier.len(),
            |i: int| ViewChangeView::Remove(earlier[i]),
        ));
        lemma_removals_applied(members, earlier, peer);
        assert(changes.last() == ViewChangeView::Remove(gone.last()));
        if gone.contains(peer) {
            let i = choose|i: int| 0 <= i < gone.len() && gone[i] == peer;
            if i < gone.len() - 1 {
                assert(earlier[i] == peer);
            }
        }
        if earlier.contains(peer) {
            let i = choose|i: int| 0 <= i < earlier.len() && earlier[i] == peer;
            assert(gone[i] == peer);
        }
    }
}

/// Additions take into a partial view the peers they name, and no others.
proof fn lemma_additions_applied(members: Set<Seq<char>>, fresh: Seq<Seq<char>>, peer: Seq<char>)
    ensures
        partial_view_after(
            members,
            Seq::new(fresh.len(), |i: int| ViewChangeView::Add(fresh[i])),
        ).contains(peer) <==> members.contains(peer) || fresh.contains(peer),
    decreases fresh.len(),
{
    let changes = Seq::new(fresh.len(), |i: int| ViewChangeView::Add(fresh[i]));
    if fresh.len() > 0 {
        let earlier = fresh.drop_last();
        assert(changes.drop_last() =~= Seq::new(
            earlier.len(),
            |i: int| ViewChangeView::Add(earlier[i]),
        ));
        lemma_additions_applied(members, earlier, peer);
        assert(changes.last() == ViewChangeView::Add(fresh.last()));
        if fresh.contains(peer) {
            let i = choose|i: int| 0 <= i < fresh.len() && fresh[i] == peer;
            if i < fresh.len() - 1 {
                assert(earlier[i] == peer);
            }
        }
        if earlier.contains(peer) {
            let i = choose|i: int| 0 <= i < earlier.len() && earlier[i] == peer;
            assert(fresh[i] == peer);
        }
    }
}

/// After an expiry has been acted on, a peer is in the partial view exactly if
/// it was there before and has not both expired and dropped out of discovery.
/// So an expired peer leaves the partial view unless discovery still reports
/// it, and no other peer's membership changes.
pub proof fn lemma_expired_peer_leaves_unless_discovered(
    members: Set<Seq<char>>,
    expired: Seq<Seq<char>>,
    discovered: Seq<Seq<char>>,
    peer: Seq<char>,
)
    ensures
        partial_view_after(
            members,
            membership_changes(DiscoveryEventView::Expired(expired), discovered),
        ).contains(peer) <==> members.contains(peer) && !(expired.contains(peer)
            && !discovered.contains(peer)),
{
    let gone = expired.filter(not_among(discovered));
    lemma_removals_applied(members, gone, peer);
    if expired.contains(peer) && !discovered.contains(peer) {
        let i = choose|i: int| 0 <= i < expired.len() && expired[i] == peer;
        assert(not_among(discovered)(expired[i]));
        expired.lemma_filter_contains(not_among(discovered), i);
    }
    if gone.contains(peer) {
        let i = choose|i: int| 0 <= i < gone.len() && gone[i] == peer;
        expired.lemma_filter_contains_rev(not_among(discovered), peer);
        expired.lemma_filter_pred(not_among(discovered), i);
    }
}

/// After an appearance has been acted on, a peer is in the partial view
/// exactly if it was there before or has just appeared.
pub proof fn lemma_discovered_peer_joins(
    members: Set<Seq<char>>,
    appeared: Seq<Seq<char>>,
    discovered: Seq<Seq<char>>,
    peer: Seq<char>,
)
    ensures
        partial_view_after(
            members,
            membership_changes(DiscoveryEventView::Discovered(appeared), discovered),
        ).contains(peer) <==> members.contains(peer) || appeared.contains(peer),
{
    lemma_additions_applied(members, appeared, peer);
}

/// The name of the machine, where it is valid Unicode.
///
/// Calls `gethostname::gethostname`, which asks the operating system, and turns
/// the `OsString` it returns into a `String`; `None` stands for a name that is
/// no valid Unicode. Nothing is claimed about the name: it is the machine's.
/// The outside function panics if the operating system refuses the call, which
/// its documentation calls unrealistic.
#[verifier::external_body]
pub(crate) fn local_hostname() -> (name: Option<String>) {
    gethostname::gethostname().into_string().ok()
}

/// Builds the answer that the node `peer_id`, running on `hostname`, gives to
/// the node `receiver`.
pub fn status_response_for(
    receiver: String,
    peer_id: String,
    hostname: String,
    description: String,
) -> (response: ListResponse)
    ensures
        response@ == status_response(receiver@, peer_id@, hostname@, description@),
{
    ListResponse {
        mode: PeerListMode::ALL,
        receiver,
        data: Peer { id: peer_id, hostname, description },
    }
}

/// Builds the answer of the node `peer_id` to the node `receiver`, with the
/// name of this machine in it. There is no answer where the machine's name is
/// no valid Unicode.
pub fn respond_with_peer_info(receiver: String, peer_id: String, description: String) -> (response:
    Option<ListResponse>)
    ensures
        response matches Some(answer) ==> answer@ == status_response(
            receiver@,
            peer_id@,
            answer@.data.hostname,
            description@,
        ),
{
    match local_hostname() {
        Some(hostname) => Some(status_response_for(receiver, peer_id, hostname, description)),
        None => None,
    }
}

/// Whether `id` is among `nodes`.
pub fn contains_id(nodes: &Vec<String>, id: &String) -> (found: bool)
    ensures
        found == nodes.deep_view().contains(id@),
{
    let mut at: usize = 0;
    while at < nodes.len()
        invariant
            at <= nodes@.len(),
            forall|i: int| 0 <= i < at ==> (#[trigger] nodes@[i])@ != id@,
        decreases nodes@.len() - at,
    {
        if nodes[at] == *id {
            assert(nodes.deep_view()[at as int] == id@);
            return true;
        }
        at = at + 1;
    }
    assert forall|i: int| 0 <= i < nodes.deep_view().len() implies nodes.deep_view()[i]
        != id@ by {
        assert(nodes@[i]@ != id@);
    }
    false
}

impl PeerStatusBehaviour {
    /// Whether `event` is a status request that this node has to answer.
    pub fn owes_answer(&self, event: &GossipEvent) -> (owed: bool)
        ensures
            owed == owes_answer(self@, event@),
    {
        match event {
            GossipEvent::Message { source, payload } => match &payload.as_response {
                Some(_) => false,
                None => match &payload.as_request {
                    Some(request) => request.mode.targets(&self.peer_id),
                    None => false,
                },
            },
            GossipEvent::Other => false,
        }
    }

    /// Decides what to do about `event`, given the machine's host name
    /// (`None` where it has none that is text).
    pub fn react(&self, event: GossipEvent, hostname: Option<String>) -> (reaction: Reaction)
        ensures
            reaction@ == reaction_to(self@, event@, hostname.deep_view()),
    {
        let owed = self.owes_answer(&event);
        match event {
            GossipEvent::Message { source, payload } => match payload.as_response {
                Some(response) => {
                    if response.receiver == self.peer_id {
                        Reaction::Deliver(ListEventType::Response(response))
                    } else {
                        Reaction::Ignore
                    }
                },
                None => match hostname {
                    Some(name) => {
                        if owed {
                            Reaction::Publish(
                                status_response_for(
                                    source,
                                    self.peer_id.clone(),
                                    name,
                                    self.description.clone(),
                                ),
                            )
                        } else {
                            Reaction::Ignore
                        }
                    },
                    None => Reaction::Ignore,
                },
            },
            GossipEvent::Other => Reaction::Ignore,
        }
    }

    /// Decides what to do about `event`. Where an answer is owed, the machine
    /// is asked for its name, which goes into the answer.
    ///
    /// What is done about anything but a request that this node has to answer
    /// does not depend on the machine. Such a request is answered with the
    /// node's record under whatever name the machine has, or dropped where it
    /// has none that is text.
    pub fn inject_event(&self, event: GossipEvent) -> (reaction: Reaction)
        ensures
            !owes_answer(self@, event@) ==> reaction@ == reaction_to(self@, event@, None),
            exists|hostname: Option<Seq<char>>|
                reaction@ == #[trigger] reaction_to(self@, event@, hostname),
    {
        let hostname = if self.owes_answer(&event) {
            local_hostname()
        } else {
            None
        };
        let reaction = self.react(event, hostname);
        assert(reaction@ == reaction_to(self@, event@, hostname.deep_view()));
        reaction
    }

    /// Decides how the partial view changes on `event`, while discovery reports
    /// the peers `discovered_nodes` as live.
    pub fn inject_discovery_event(
        &self,
        event: DiscoveryEvent,
        discovered_nodes: &Vec<String>,
    ) -> (changes: Vec<ViewChange>)
        ensures
            changes.deep_view() == membership_changes(event@, discovered_nodes.deep_view()),
    {
        let mut changes: Vec<ViewChange> = Vec::new();
        match event {
            DiscoveryEvent::Discovered(peers) => {
                let mut at: usize = 0;
                while at < peers.len()
                    invariant
                        at <= peers@.len(),
                        changes@.len() == at,
                        forall|i: int|
                            0 <= i < at ==> (#[trigger] changes@[i])@ == ViewChangeView::Add(
                                peers@[i]@,
                            ),
                    decreases peers@.len() - at,
                {
                    changes.push(ViewChange::Add(peers[at].clone()));
                    at = at + 1;
                }
                assert(changes.deep_view() =~= membership_changes(
                    DiscoveryEventView::Discovered(peers.deep_view()),
                    discovered_nodes.deep_view(),
                ));
            },
            DiscoveryEvent::Expired(peers) => {
                let ghost live = discovered_nodes.deep_view();
                let ghost expired = peers.deep_view();
                let mut at: usize = 0;
                proof {
                    assert(expired.take(0) =~= Seq::<Seq<char>>::empty());
                    reveal(Seq::filter);
                }
                while at < peers.len()
                    invariant
                        at <= peers@.len(),
                        expired == peers.deep_view(),
                        live == discovered_nodes.deep_view(),
                        changes@.len() == expired.take(at as int).filter(not_among(live)).len(),
                        forall|i: int|
                            0 <= i < changes@.len() ==> (#[trigger] changes@[i])@
                                == ViewChangeView::Remove(
                                expired.take(at as int).filter(not_among(live))[i],
                            ),
                    decreases peers@.len() - at,
                {
                    let ghost seen = expired.take(at as int);
                    proof {
                        assert(expired.take(at + 1) =~= seen.push(peers@[at as int]@));
                        seen.lemma_filter_push(peers@[at as int]@, not_among(live));
                    }
                    if !contains_id(discovered_nodes, &peers[at]) {
                        changes.push(ViewChange::Remove(peers[at].clone()));
                    }
                    at = at + 1;
                }
                assert(expired.take(at as int) =~= expired);
                assert(changes.deep_view() =~= membership_changes(
                    DiscoveryEventView::Expired(expired),
                    live,
                ));
            },
        }
        changes
    }
}

} // verus!
