//! The node actor: the one owner of the node's state.
//!
//! Everything that changes the directory of collected answers goes through one
//! [`P2PNetwork`], one input at a time. Inputs come from three sources: the
//! commands of client handles, the events that the dispatcher queued, and what
//! the network layer reports. [`P2PNetwork::listen`] takes one input and says
//! what to do about it; the caller owns the channels and the sockets, does
//! what it is told and comes back with the next input.

use vstd::prelude::*;
use crate::behaviors::peer_status::{contains_id, local_hostname, membership_changes};
use crate::behaviors::peer_status::{owes_answer, reaction_to};
use crate::behaviors::peer_status::{DiscoveryEvent, DiscoveryEventView};
use crate::behaviors::peer_status::{GossipEvent, GossipEventView};
use crate::behaviors::peer_status::{PeerStatusBehaviour, PeerStatusBehaviourView};
use crate::behaviors::peer_status::{Reaction, ReactionView, ViewChange, ViewChangeView};
use crate::models::directory::PeerDirectory;
use crate::models::peer::PeerView;
use crate::requests::list_request::{PeerListMode, PeerListModeView};
use crate::requests::list_request::{PeerListRequest, PeerListRequestView};
use crate::requests::message_request::{MessageRequest, MessageRequestView};
use crate::responses::list_response::{ListEventType, ListEventTypeView, ListResponseView};

verus! {

/// What a client handle can ask of the node.
#[derive(Debug, Clone, Copy, PartialEq, Eq, Structural)]
pub enum Command {
    /// List the peers that discovery reports, each once.
    GetAllPeerIds,
    /// Ask every peer for its status, and start collecting afresh.
    SendPeerInfoRequest,
    /// Hand out what has been collected since the last request.
    GetPeerInfoResponses,
}

/// The node's answer to a [`Command`].
#[derive(Debug)]
pub enum Reply {
    /// To [`Command::GetAllPeerIds`]: the discovered peers, each once.
    PeerIds(Vec<String>),
    /// To [`Command::SendPeerInfoRequest`]: whether the request went out.
    RequestSent(Result<(), ()>),
    /// To [`Command::GetPeerInfoResponses`]: a copy of the directory.
    PeerInfo(PeerDirectory),
}

/// The mathematical value of a [`Reply`].
pub enum ReplyView {
    PeerIds(Seq<Seq<char>>),
    RequestSent(Result<(), ()>),
    PeerInfo(Map<Seq<char>, PeerView>),
}

impl View for Reply {
    type V = ReplyView;

    open spec fn view(&self) -> ReplyView {
        match self {
            Reply::PeerIds(ids) => ReplyView::PeerIds(ids.deep_view()),
            Reply::RequestSent(result) => ReplyView::RequestSent(*result),
            Reply::PeerInfo(directory) => ReplyView::PeerInfo(directory@),
        }
    }
}

/// What comes of a command: the answer for the client that sent it, and what
/// has to be published before that answer is given.
#[derive(Debug)]
pub struct CommandOutcome {
    /// The answer.
    pub reply: Reply,
    /// The request to publish on the topic, if any.
    pub publish: Option<PeerListRequest>,
}

/// The mathematical value of a [`CommandOutcome`].
pub struct CommandOutcomeView {
    pub reply: ReplyView,
    pub publish: Option<PeerListRequestView>,
}

impl View for CommandOutcome {
    type V = CommandOutcomeView;

    open spec fn view(&self) -> CommandOutcomeView {
        CommandOutcomeView { reply: self.reply@, publish: self.publish.deep_view() }
    }
}

/// What the network layer reports to the node.
#[derive(Debug)]
pub enum SwarmEvent {
    /// Something happened on the gossip topic.
    Gossip(GossipEvent),
    /// Peers appeared on the local network, or expired.
    Discovery(DiscoveryEvent),
    /// Anything else: a connection opened or closed, an address was learnt.
    Other,
}

/// The mathematical value of a [`SwarmEvent`].
pub enum SwarmEventView {
    Gossip(GossipEventView),
    Discovery(DiscoveryEventView),
    Other,
}

impl View for SwarmEvent {
    type V = SwarmEventView;

    open spec fn view(&self) -> SwarmEventView {
        match self {
            SwarmEvent::Gossip(event) => SwarmEventView::Gossip(event@),
            SwarmEvent::Discovery(event) => SwarmEventView::Discovery(event@),
            SwarmEvent::Other => SwarmEventView::Other,
        }
    }
}

/// One input of the node's loop, from whichever source was ready.
#[derive(Debug)]
pub enum Input {
    /// From the event queue that the dispatcher fills; `None` once the queue
    /// is closed for good.
    Event(Option<ListEventType>),
    /// From the network layer.
    Swarm(SwarmEvent),
    /// From the command queue that the client handles fill; `None` once every
    /// handle is gone.
    Command(Option<Command>),
}

/// The mathematical value of an [`Input`].
pub enum InputView {
    Event(Option<ListEventTypeView>),
    Swarm(SwarmEventView),
    Command(Option<Command>),
}

impl View for Input {
    type V = InputView;

    open spec fn view(&self) -> InputView {
        match self {
            Input::Event(None) => InputView::Event(None),
            Input::Event(Some(event)) => InputView::Event(Some(event@)),
            Input::Swarm(event) => InputView::Swarm(event@),
            Input::Command(command) => InputView::Command(*command),
        }
    }
}

/// What the loop has to do after one input.
#[derive(Debug)]
pub enum Turn {
    /// A queue is closed for good: leave the loop.
    Stop,
    /// Nothing to do.
    Idle,
    /// Publish what the outcome asks for, then give its answer to the client
    /// that sent the command; a client that no longer waits is no fault.
    Answer(CommandOutcome),
    /// Do what the dispatcher decided about a gossip event.
    React(Reaction),
    /// Apply these changes to the partial view, first to last.
    Update(Vec<ViewChange>),
}

/// The mathematical value of a [`Turn`].
pub enum TurnView {
    Stop,
    Idle,
    Answer(CommandOutcomeView),
    React(ReactionView),
    Update(Seq<ViewChangeView>),
}

impl View for Turn {
    type V = TurnView;

    open spec fn view(&self) -> TurnView {
        match self {
            Turn::Stop => TurnView::Stop,
            Turn::Idle => TurnView::Idle,
            Turn::Answer(outcome) => TurnView::Answer(outcome@),
            Turn::React(reaction) => TurnView::React(reaction@),
            Turn::Update(changes) => TurnView::Update(changes.deep_view()),
        }
    }
}

/// The node: who it is, whether it is subscribed to the topic, and what its
/// peers have answered since it last asked.
#[derive(Debug)]
pub struct P2PNetwork {
    behaviour: PeerStatusBehaviour,
    subscribed: bool,
    peer_info_responses: PeerDirectory,
}

/// The mathematical value of a [`P2PNetwork`].
pub struct P2PNetworkView {
    pub behaviour: PeerStatusBehaviourView,
    pub subscribed: bool,
    pub directory: Map<Seq<char>, PeerView>,
}

impl View for P2PNetwork {
    type V = P2PNetworkView;

    closed spec fn view(&self) -> P2PNetworkView {
        P2PNetworkView {
            behaviour: self.behaviour@,
            subscribed: self.subscribed,
            directory: self.peer_info_responses@,
        }
    }
}

/// The request that asks every peer for its status.
pub open spec fn request_to_all() -> PeerListRequestView {
    PeerListRequestView { mode: PeerListModeView::All }
}

/// The directory after the node `peer_id` has taken in `event`: a response
/// meant for the node is filed under the identifier of the peer it describes,
/// in place of what was there; one meant for another node changes nothing.
pub open spec fn directory_after(
    directory: Map<Seq<char>, PeerView>,
    peer_id: Seq<char>,
    event: ListEventTypeView,
) -> Map<Seq<char>, PeerView> {
    match event {
        ListEventTypeView::Response(response) => if response.receiver == peer_id {
            directory.insert(response.data.id, response.data)
        } else {
            directory
        },
    }
}

/// The node after it has served `command`: asking for status empties the
/// directory, and nothing else changes anything.
pub open spec fn state_after_command(state: P2PNetworkView, command: Command) -> P2PNetworkView {
    match command {
        Command::SendPeerInfoRequest => P2PNetworkView {
            directory: Map::<Seq<char>, PeerView>::empty(),
            ..state
        },
        _ => state,
    }
}

/// Whether `ids` lists the peers in `nodes`, each exactly once.
pub open spec fn lists_each_once(ids: Seq<Seq<char>>, nodes: Seq<Seq<char>>) -> bool {
    &&& ids.no_duplicates()
    &&& forall|id: Seq<char>| ids.contains(id) <==> nodes.contains(id)
}

/// Whether `outcome` is what comes of `command` when the node is in `state`
/// and discovery reports the peers `nodes`.
///
/// - The list of peers holds each discovered peer once.
/// - A status request goes out to everyone if the node is subscribed to the
///   topic, and the answer is `Ok`; if it is not, nothing goes out and the
///   answer is `Err`.
/// - The collected answers are handed out as they are.
pub open spec fn answers(
    state: P2PNetworkView,
    command: Command,
    nodes: Seq<Seq<char>>,
    outcome: CommandOutcomeView,
) -> bool {
    match command {
        Command::GetAllPeerIds => {
            &&& outcome.publish is None
            &&& outcome.reply matches ReplyView::PeerIds(ids)
            &&& lists_each_once(ids, nodes)
        },
        Command::SendPeerInfoRequest => if state.subscribed {
            outcome == CommandOutcomeView {
                reply: ReplyView::RequestSent(Ok(())),
                publish: Some(request_to_all()),
            }
        } else {
            outcome == CommandOutcomeView {
                reply: ReplyView::RequestSent(Err(())),
                publish: None,
            }
        },
        Command::GetPeerInfoResponses => outcome == CommandOutcomeView {
            reply: ReplyView::PeerInfo(state.directory),
            publish: None,
        },
    }
}

/// The node after it has taken `input`. Only a queued response and a status
/// request touch the directory; a closed queue, a gossip event and a discovery
/// event leave the node as it is.
pub open spec fn state_after(state: P2PNetworkView, input: InputView) -> P2PNetworkView {
    match input {
        InputView::Event(Some(event)) => P2PNetworkView {
            directory: directory_after(state.directory, state.behaviour.peer_id, event),
            ..state
        },
        InputView::Command(Some(command)) => state_after_command(state, command),
        _ => state,
    }
}

/// Whether `turn` is what the loop has to do about `input` when the node is in
/// `state` and discovery reports the peers `nodes`.
///
/// - A closed queue stops the loop, whichever queue it is.
/// - A queued event is taken in silently.
/// - A command is answered as [`answers`] says.
/// - A gossip event is reacted to as [`reaction_to`] says, under some host
///   name; where no answer is owed, the host name plays no part.
/// - A discovery event changes the partial view as [`membership_changes`]
///   says.
/// - Any other report of the network layer is dropped.
pub open spec fn turn_for(
    state: P2PNetworkView,
    input: InputView,
    nodes: Seq<Seq<char>>,
    turn: TurnView,
) -> bool {
    match input {
        InputView::Event(None) => turn == TurnView::Stop,
        InputView::Event(Some(_)) => turn == TurnView::Idle,
        InputView::Command(None) => turn == TurnView::Stop,
        InputView::Command(Some(command)) => {
            &&& turn matches TurnView::Answer(outcome)
            &&& answers(state, command, nodes, outcome)
        },
        InputView::Swarm(SwarmEventView::Gossip(event)) => {
            &&& turn matches TurnView::React(reaction)
            &&& exists|hostname: Option<Seq<char>>|
                reaction == #[trigger] reaction_to(state.behaviour, event, hostname)
            &&& !owes_answer(state.behaviour, event) ==> reaction == reaction_to(
                state.behaviour,
                event,
                None,
            )
        },
        InputView::Swarm(SwarmEventView::Discovery(event)) => turn == TurnView::Update(
            membership_changes(event, nodes),
        ),
        InputView::Swarm(SwarmEventView::Other) => turn == TurnView::Idle,
    }
}

impl P2PNetwork {
    /// A node called `peer_id` that describes itself by `description` and has
    /// collected nothing yet. `subscribed` says whether the node is subscribed
    /// to the gossip topic, without which it cannot publish.
    pub fn new(peer_id: String, description: String, subscribed: bool) -> (network: Self)
        ensures
            network@ == (P2PNetworkView {
                behaviour: PeerStatusBehaviourView { description: description@, peer_id: peer_id@ },
                subscribed,
                directory: Map::<Seq<char>, PeerView>::empty(),
            }),
    {
        P2PNetwork {
            behaviour: PeerStatusBehaviour { description, peer_id },
            subscribed,
            peer_info_responses: PeerDirectory::new(),
        }
    }

    /// The dispatcher of this node.
    pub fn behaviour(&self) -> (behaviour: &PeerStatusBehaviour)
        ensures
            behaviour@ == self@.behaviour,
    {
        &self.behaviour
    }

    /// The node's own identifier.
    pub fn peer_id(&self) -> (id: &String)
        ensures
            id@ == self@.behaviour.peer_id,
    {
        &self.behaviour.peer_id
    }

    /// Whether the node is subscribed to the gossip topic.
    pub fn is_subscribed(&self) -> (subscribed: bool)
        ensures
            subscribed == self@.subscribed,
    {
        self.subscribed
    }

    /// The answers collected since the node last asked.
    pub fn peer_info_responses(&self) -> (directory: &PeerDirectory)
        ensures
            directory@ == self@.directory,
    {
        &self.peer_info_responses
    }

    /// The peers in `nodes`, each once.
    pub fn handle_list_peers(&self, nodes: &Vec<String>) -> (unique_peers: Vec<String>)
        ensures
            lists_each_once(unique_peers.deep_view(), nodes.deep_view()),
    {
        let mut unique_peers: Vec<String> = Vec::new();
        let mut at: usize = 0;
        while at < nodes.len()
            invariant
                at <= nodes@.len(),
                lists_each_once(unique_peers.deep_view(), nodes.deep_view().take(at as int)),
            decreases nodes@.len() - at,
        {
            let ghost seen = nodes.deep_view().take(at as int);
            let ghost kept = unique_peers.deep_view();
            let ghost next = nodes@[at as int]@;
            proof {
                assert(nodes.deep_view().take(at + 1) =~= seen.push(next));
            }
            if !contains_id(&unique_peers, &nodes[at]) {
                unique_peers.push(nodes[at].clone());
                proof {
                    assert(unique_peers.deep_view() =~= kept.push(next));
                    assert forall|id: Seq<char>|
                        kept.push(next).contains(id) <==> seen.push(next).contains(id) by {
                        lemma_contains_push(kept, next, id);
                        lemma_contains_push(seen, next, id);
                    }
                    assert forall|i: int, j: int|
                        0 <= i < kept.push(next).len() && 0 <= j < kept.push(next).len() && i
                            != j implies kept.push(next)[i] != kept.push(next)[j] by {
                        if i < kept.len() && j < kept.len() {
                        } else if i < kept.len() {
                            assert(kept.contains(kept[i]));
                        } else {
                            assert(kept.contains(kept[j]));
                        }
                    }
                }
            } else {
                proof {
                    assert forall|id: Seq<char>|
                        kept.contains(id) <==> seen.push(next).contains(id) by {
                        lemma_contains_push(seen, next, id);
                    }
                }
            }
            at = at + 1;
        }
        assert(nodes.deep_view().take(at as int) =~= nodes.deep_view());
        unique_peers
    }

    /// The request that asks every peer for its status.
    pub fn send_peer_list_request(&self) -> (request: PeerListRequest)
        ensures
            request@ == request_to_all(),
    {
        PeerListRequest { mode: PeerListMode::ALL }
    }

    /// Serves one command, while discovery reports the peers
    /// `discovered_nodes`.
    pub fn handle_command(&mut self, command: Command, discovered_nodes: &Vec<String>) -> (outcome:
        CommandOutcome)
        ensures
            final(self)@ == state_after_command(old(self)@, command),
            answers(old(self)@, command, discovered_nodes.deep_view(), outcome@),
    {
        match command {
            Command::GetAllPeerIds => {
                let peers = self.handle_list_peers(discovered_nodes);
                CommandOutcome { reply: Reply::PeerIds(peers), publish: None }
            },
            Command::SendPeerInfoRequest => {
                let outcome = if self.subscribed {
                    CommandOutcome {
                        reply: Reply::RequestSent(Ok(())),
                        publish: Some(self.send_peer_list_request()),
                    }
                } else {
                    CommandOutcome { reply: Reply::RequestSent(Err(())), publish: None }
                };
                self.peer_info_responses.clear();
                outcome
            },
            Command::GetPeerInfoResponses => {
                CommandOutcome {
                    reply: Reply::PeerInfo(self.peer_info_responses.clone()),
                    publish: None,
                }
            },
        }
    }

    /// Takes in an event that the dispatcher queued: a response meant for this
    /// node is filed in the directory, under the identifier of the peer it
    /// describes. Nothing is published about it.
    pub fn handle_event(&mut self, event: ListEventType)
        ensures
            final(self)@ == (P2PNetworkView {
                directory: directory_after(
                    old(self)@.directory,
                    old(self)@.behaviour.peer_id,
                    event@,
                ),
                ..old(self)@
            }),
    {
        match event {
            ListEventType::Response(response) => {
                if response.receiver == self.behaviour.peer_id {
                    self.peer_info_responses.insert(response.data);
                }
            },
        }
    }

    /// One turn of the node's loop: takes `input`, changes the node's state as
    /// the input asks, and says what the loop has to do next. `discovered_nodes`
    /// are the peers that discovery reports as live when the input is taken.
    ///
    /// The loop that calls this waits for whichever of the three sources is
    /// ready first, with no source favoured, and leaves when told
    /// [`Turn::Stop`]: there is no other way out.
    pub fn listen(&mut self, input: Input, discovered_nodes: &Vec<String>) -> (turn: Turn)
        ensures
            final(self)@ == state_after(old(self)@, input@),
            turn_for(old(self)@, input@, discovered_nodes.deep_view(), turn@),
    {
        match input {
            Input::Event(Some(event)) => {
                self.handle_event(event);
                Turn::Idle
            },
            Input::Event(None) => Turn::Stop,
            Input::Command(Some(command)) => Turn::Answer(
                self.handle_command(command, discovered_nodes),
            ),
            Input::Command(None) => Turn::Stop,
            Input::Swarm(SwarmEvent::Gossip(event)) => Turn::React(
                self.behaviour.inject_event(event),
            ),
            Input::Swarm(SwarmEvent::Discovery(event)) => Turn::Update(
                self.behaviour.inject_discovery_event(event, discovered_nodes),
            ),
            Input::Swarm(SwarmEvent::Other) => Turn::Idle,
        }
    }
}

/// Taking in the same response twice leaves the directory as taking it in
/// once does.
pub proof fn lemma_same_response_twice(
    directory: Map<Seq<char>, PeerView>,
    peer_id: Seq<char>,
    event: ListEventTypeView,
)
    ensures
        directory_after(directory_after(directory, peer_id, event), peer_id, event)
            == directory_after(directory, peer_id, event),
{
    let once = directory_after(directory, peer_id, event);
    assert(directory_after(once, peer_id, event) =~= once);
}

/// Once a status request has been answered with `Ok`, the request to everyone
/// has gone out, and the collected answers that are handed out before any
/// response is taken in are none.
pub proof fn lemma_request_empties_directory(
    state: P2PNetworkView,
    nodes: Seq<Seq<char>>,
    later_nodes: Seq<Seq<char>>,
    sent: CommandOutcomeView,
    outcome: CommandOutcomeView,
)
    requires
        answers(state, Command::SendPeerInfoRequest, nodes, sent),
        sent.reply == ReplyView::RequestSent(Ok(())),
        answers(
            state_after_command(state, Command::SendPeerInfoRequest),
            Command::GetPeerInfoResponses,
            later_nodes,
            outcome,
        ),
    ensures
        sent.publish == Some(request_to_all()),
        outcome.reply == ReplyView::PeerInfo(Map::<Seq<char>, PeerView>::empty()),
{
}

/// Two responses from different peers, both meant for this node, taken in
/// after the directory was emptied, leave exactly those two peers' records in
/// it, in whichever order they arrive.
pub proof fn lemma_responses_accumulate(
    peer_id: Seq<char>,
    first: ListResponseView,
    second: ListResponseView,
)
    requires
        first.receiver == peer_id,
        second.receiver == peer_id,
        first.data.id != second.data.id,
    ensures
        ({
            let empty = Map::<Seq<char>, PeerView>::empty();
            let both = empty.insert(first.data.id, first.data).insert(
                second.data.id,
                second.data,
            );
            &&& directory_after(
                directory_after(empty, peer_id, ListEventTypeView::Response(first)),
                peer_id,
                ListEventTypeView::Response(second),
            ) == both
            &&& directory_after(
                directory_after(empty, peer_id, ListEventTypeView::Response(second)),
                peer_id,
                ListEventTypeView::Response(first),
            ) == both
            &&& both.dom() == set![first.data.id, second.data.id]
            &&& both[first.data.id] == first.data
            &&& both[second.data.id] == second.data
        }),
{
    let empty = Map::<Seq<char>, PeerView>::empty();
    let both = empty.insert(first.data.id, first.data).insert(second.data.id, second.data);
    let other = empty.insert(second.data.id, second.data).insert(first.data.id, first.data);
    assert(other =~= both);
    assert(both.dom() =~= set![first.data.id, second.data.id]);
}

/// A response meant for another node never changes this node's directory,
/// whether it reaches the actor or not.
pub proof fn lemma_foreign_response_changes_nothing(
    directory: Map<Seq<char>, PeerView>,
    peer_id: Seq<char>,
    response: ListResponseView,
)
    requires
        response.receiver != peer_id,
    ensures
        directory_after(directory, peer_id, ListEventTypeView::Response(response)) == directory,
{
}

/// Nothing that the network layer reports changes the node's state: gossip
/// reaches the directory only as an event that the dispatcher queued.
pub proof fn lemma_network_reports_change_nothing(state: P2PNetworkView, event: SwarmEventView)
    ensures
        state_after(state, InputView::Swarm(event)) == state,
{
}

/// Handing out the collected answers changes nothing, so two clients that ask
/// one after the other, with no input between them, get the same answers.
pub proof fn lemma_snapshots_agree(
    state: P2PNetworkView,
    nodes: Seq<Seq<char>>,
    later_nodes: Seq<Seq<char>>,
    first: CommandOutcomeView,
    second: CommandOutcomeView,
)
    requires
        answers(state, Command::GetPeerInfoResponses, nodes, first),
        answers(
            state_after_command(state, Command::GetPeerInfoResponses),
            Command::GetPeerInfoResponses,
            later_nodes,
            second,
        ),
    ensures
        first == second,
        first.reply == ReplyView::PeerInfo(state.directory),
{
}

/// The broadcast that the console line `cmd` asks for, on a machine called
/// `hostname`: the text after the word `send` and one space. A line that does
/// not start so asks for none, and without a host name none can be made.
pub open spec fn message_to_send(cmd: Seq<char>, hostname: Option<Seq<char>>) -> Option<
    MessageRequestView,
> {
    if "send "@.is_prefix_of(cmd) && hostname is Some {
        Some(
            MessageRequestView {
                message: cmd.subrange("send "@.len() as int, cmd.len() as int),
                hostname: hostname->0,
            },
        )
    } else {
        None
    }
}

/// What is left of `text` once `prefix` is taken off its front.
///
/// Calls `str::strip_prefix` of the standard library, which returns the rest
/// of the text in `Some` if the text starts with the prefix, and `None` if it
/// does not.
#[verifier::external_body]
fn strip_prefix<'a>(text: &'a str, prefix: &str) -> (rest: Option<&'a str>)
    ensures
        match rest {
            Some(tail) => text@ == prefix@ + tail@,
            None => !prefix@.is_prefix_of(text@),
        },
{
    text.strip_prefix(prefix)
}

/// Builds the broadcast that the console line `cmd` asks for, on a machine
/// called `hostname`.
pub fn message_request_for(cmd: &str, hostname: Option<String>) -> (request: Option<
    MessageRequest,
>)
    ensures
        request.deep_view() == message_to_send(cmd@, hostname.deep_view()),
{
    match strip_prefix(cmd, "send ") {
        Some(text) => {
            proof {
                assert(cmd@.subrange(0, "send "@.len() as int) =~= "send "@);
                assert(cmd@.subrange("send "@.len() as int, cmd@.len() as int) =~= text@);
            }
            match hostname {
                Some(name) => Some(MessageRequest { message: text.to_owned(), hostname: name }),
                None => None,
            }
        },
        None => None,
    }
}

/// Builds the broadcast that the console line `cmd` asks for, with the name
/// of this machine in it. The machine is asked for its name only where the
/// line asks for a broadcast.
pub fn handle_message_send(cmd: &str) -> (request: Option<MessageRequest>)
    ensures
        !"send "@.is_prefix_of(cmd@) ==> request is None,
        exists|hostname: Option<Seq<char>>|
            request.deep_view() == #[trigger] message_to_send(cmd@, hostname),
{
    let hostname = if strip_prefix(cmd, "send ").is_some() {
        local_hostname()
    } else {
        None
    };
    let request = message_request_for(cmd, hostname);
    assert(request.deep_view() == message_to_send(cmd@, hostname.deep_view()));
    request
}

/// A sequence that got one more item holds what it held, and that item.
proof fn lemma_contains_push(items: Seq<Seq<char>>, last: Seq<char>, id: Seq<char>)
    ensures
        items.push(last).contains(id) <==> items.contains(id) || id == last,
{
    let longer = items.push(last);
    if items.contains(id) {
        let i = choose|i: int| 0 <= i < items.len() && items[i] == id;
        assert(longer[i] == id);
    }
    if id == last {
        assert(longer[items.len() as int] == id);
    }
    if longer.contains(id) {
        let i = choose|i: int| 0 <= i < longer.len() && longer[i] == id;
        if i < items.len() {
            assert(items[i] == id);
        }
    }
}

} // verus!
