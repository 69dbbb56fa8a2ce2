use p2p::behaviors::peer_status::{contains_id, respond_with_peer_info, status_response_for};
use p2p::behaviors::peer_status::{DiscoveryEvent, GossipEvent, Payload, PeerStatusBehaviour};
use p2p::behaviors::peer_status::{Reaction, ViewChange};
use p2p::models::peer::Peer;
use p2p::requests::list_request::{PeerListMode, PeerListRequest};
use p2p::responses::list_response::{ListEventType, ListResponse};

fn node(id: &str, description: &str) -> PeerStatusBehaviour {
    PeerStatusBehaviour { description: description.to_string(), peer_id: id.to_string() }
}

fn response(receiver: &str, id: &str) -> ListResponse {
    ListResponse {
        mode: PeerListMode::ALL,
        data: Peer {
            id: id.to_string(),
            hostname: format!("host-of-{}", id),
            description: format!("about {}", id),
        },
        receiver: receiver.to_string(),
    }
}

fn message(source: &str, as_response: Option<ListResponse>, as_request: Option<PeerListRequest>) -> GossipEvent {
    GossipEvent::Message {
        source: source.to_string(),
        payload: Payload { as_response, as_request },
    }
}

fn ids(names: &[&str]) -> Vec<String> {
    names.iter().map(|name| name.to_string()).collect()
}

#[test]
fn status_response_carries_the_own_record() {
    let answer = status_response_for(
        "p1".to_string(),
        "p2".to_string(),
        "h2".to_string(),
        "d2".to_string(),
    );
    assert_eq!(answer.mode, PeerListMode::ALL);
    assert_eq!(answer.receiver, "p1");
    assert_eq!(answer.data.id, "p2");
    assert_eq!(answer.data.hostname, "h2");
    assert_eq!(answer.data.description, "d2");
}

#[test]
fn respond_with_peer_info_names_this_machine() {
    let expected = gethostname::gethostname().into_string().ok();
    let answer = respond_with_peer_info("p1".to_string(), "p2".to_string(), "d2".to_string());
    match (answer, expected) {
        (Some(answer), Some(hostname)) => {
            assert_eq!(
                answer,
                status_response_for("p1".to_string(), "p2".to_string(), hostname, "d2".to_string())
            );
        }
        (None, None) => {}
        (answer, expected) => panic!("answer {:?} on a machine called {:?}", answer, expected),
    }
}

#[test]
fn response_for_this_node_is_delivered() {
    let me = node("p1", "d1");
    let arrived = response("p1", "p2");
    let reaction = me.react(message("p2", Some(arrived.clone()), None), None);
    assert_eq!(reaction, Reaction::Deliver(ListEventType::Response(arrived)));
}

#[test]
fn response_for_another_node_is_ignored() {
    let me = node("p1", "d1");
    let reaction = me.react(message("p2", Some(response("p3", "p2")), None), Some("h1".to_string()));
    assert_eq!(reaction, Reaction::Ignore);
    let reaction = me.inject_event(message("p2", Some(response("p3", "p2")), None));
    assert_eq!(reaction, Reaction::Ignore);
}

#[test]
fn payload_that_reads_both_ways_is_a_response() {
    let me = node("p1", "d1");
    let arrived = response("p1", "p2");
    let reaction = me.react(
        message(
            "p2",
            Some(arrived.clone()),
            Some(PeerListRequest { mode: PeerListMode::ALL }),
        ),
        Some("h1".to_string()),
    );
    assert_eq!(reaction, Reaction::Deliver(ListEventType::Response(arrived)));
    let reaction = me.react(
        message(
            "p2",
            Some(response("p3", "p2")),
            Some(PeerListRequest { mode: PeerListMode::ALL }),
        ),
        Some("h1".to_string()),
    );
    assert_eq!(reaction, Reaction::Ignore);
}

#[test]
fn request_to_all_is_answered_to_its_sender() {
    let me = node("p2", "d2");
    let reaction = me.react(
        message("p1", None, Some(PeerListRequest { mode: PeerListMode::ALL })),
        Some("h2".to_string()),
    );
    assert_eq!(
        reaction,
        Reaction::Publish(ListResponse {
            mode: PeerListMode::ALL,
            data: Peer {
                id: "p2".to_string(),
                hostname: "h2".to_string(),
                description: "d2".to_string(),
            },
            receiver: "p1".to_string(),
        })
    );
}

#[test]
fn request_by_name_is_answered_by_the_named_node() {
    let me = node("p2", "d2");
    let reaction = me.react(
        message("p1", None, Some(PeerListRequest { mode: PeerListMode::One("p2".to_string()) })),
        Some("h2".to_string()),
    );
    assert_eq!(
        reaction,
        Reaction::Publish(status_response_for(
            "p1".to_string(),
            "p2".to_string(),
            "h2".to_string(),
            "d2".to_string()
        ))
    );
}

#[test]
fn request_for_another_node_is_never_answered() {
    let me = node("p2", "d2");
    let request = || Some(PeerListRequest { mode: PeerListMode::One("p3".to_string()) });
    assert_eq!(me.react(message("p1", None, request()), Some("h2".to_string())), Reaction::Ignore);
    assert_eq!(me.react(message("p1", None, request()), None), Reaction::Ignore);
    assert_eq!(me.inject_event(message("p1", None, request())), Reaction::Ignore);
    assert!(!me.owes_answer(&message("p1", None, request())));
}

#[test]
fn request_goes_unanswered_without_a_host_name() {
    let me = node("p2", "d2");
    let reaction = me.react(message("p1", None, Some(PeerListRequest { mode: PeerListMode::ALL })), None);
    assert_eq!(reaction, Reaction::Ignore);
}

#[test]
fn unreadable_payload_is_ignored() {
    let me = node("p1", "d1");
    assert_eq!(me.react(message("p2", None, None), Some("h1".to_string())), Reaction::Ignore);
    assert_eq!(me.react(message("p2", None, None), None), Reaction::Ignore);
    assert_eq!(me.inject_event(message("p2", None, None)), Reaction::Ignore);
    assert!(!me.owes_answer(&message("p2", None, None)));
}

#[test]
fn other_gossip_events_are_ignored() {
    let me = node("p1", "d1");
    assert_eq!(me.react(GossipEvent::Other, Some("h1".to_string())), Reaction::Ignore);
    assert_eq!(me.inject_event(GossipEvent::Other), Reaction::Ignore);
    assert!(!me.owes_answer(&GossipEvent::Other));
}

#[test]
fn owes_answer_tells_requests_for_this_node() {
    let me = node("p2", "d2");
    assert!(me.owes_answer(&message("p1", None, Some(PeerListRequest { mode: PeerListMode::ALL }))));
    assert!(me.owes_answer(&message(
        "p1",
        None,
        Some(PeerListRequest { mode: PeerListMode::One("p2".to_string()) })
    )));
    assert!(!me.owes_answer(&message(
        "p1",
        Some(response("p2", "p1")),
        Some(PeerListRequest { mode: PeerListMode::ALL })
    )));
}

#[test]
fn inject_event_answers_with_this_machines_name() {
    let me = node("p2", "d2");
    let reaction = me.inject_event(message("p1", None, Some(PeerListRequest { mode: PeerListMode::ALL })));
    match gethostname::gethostname().into_string().ok() {
        Some(hostname) => assert_eq!(
            reaction,
            Reaction::Publish(status_response_for(
                "p1".to_string(),
                "p2".to_string(),
                hostname,
                "d2".to_string()
            ))
        ),
        None => assert_eq!(reaction, Reaction::Ignore),
    }
}

#[test]
fn contains_id_finds_exact_matches() {
    let nodes = ids(&["a", "b", "c"]);
    assert!(contains_id(&nodes, &"a".to_string()));
    assert!(contains_id(&nodes, &"c".to_string()));
    assert!(!contains_id(&nodes, &"d".to_string()));
    assert!(!contains_id(&nodes, &"A".to_string()));
    assert!(!contains_id(&Vec::new(), &"a".to_string()));
}

#[test]
fn discovered_peers_are_added_in_order() {
    let me = node("p1", "d1");
    let changes = me.inject_discovery_event(DiscoveryEvent::Discovered(ids(&["a", "b", "a"])), &ids(&[]));
    assert_eq!(
        changes,
        vec![
            ViewChange::Add("a".to_string()),
            ViewChange::Add("b".to_string()),
            ViewChange::Add("a".to_string()),
        ]
    );
}

#[test]
fn expired_peer_is_removed_when_no_longer_discovered() {
    let me = node("p1", "d1");
    let changes = me.inject_discovery_event(DiscoveryEvent::Expired(ids(&["a"])), &ids(&["b"]));
    assert_eq!(changes, vec![ViewChange::Remove("a".to_string())]);
}

#[test]
fn expired_peer_stays_while_still_discovered() {
    let me = node("p1", "d1");
    let changes = me.inject_discovery_event(DiscoveryEvent::Expired(ids(&["a"])), &ids(&["b", "a"]));
    assert_eq!(changes, Vec::<ViewChange>::new());
}

#[test]
fn expiry_removes_exactly_the_peers_that_are_gone() {
    let me = node("p1", "d1");
    let changes = me.inject_discovery_event(
        DiscoveryEvent::Expired(ids(&["a", "b", "c", "d"])),
        &ids(&["d", "b"]),
    );
    assert_eq!(
        changes,
        vec![ViewChange::Remove("a".to_string()), ViewChange::Remove("c".to_string())]
    );
}

#[test]
fn empty_discovery_events_change_nothing() {
    let me = node("p1", "d1");
    assert!(me.inject_discovery_event(DiscoveryEvent::Discovered(Vec::new()), &ids(&["a"])).is_empty());
    assert!(me.inject_discovery_event(DiscoveryEvent::Expired(Vec::new()), &ids(&["a"])).is_empty());
}

#[test]
fn partial_view_follows_discovery() {
    let me = node("p1", "d1");
    let mut view: Vec<String> = Vec::new();
    let mut apply = |changes: Vec<ViewChange>, view: &mut Vec<String>| {
        for change in changes {
            match change {
                ViewChange::Add(peer) => {
                    if !view.contains(&peer) {
                        view.push(peer)
                    }
                }
                ViewChange::Remove(peer) => view.retain(|member| *member != peer),
            }
        }
    };
    apply(
        me.inject_discovery_event(DiscoveryEvent::Discovered(ids(&["a", "b", "c"])), &ids(&["a", "b", "c"])),
        &mut view,
    );
    assert_eq!(view, ids(&["a", "b", "c"]));
    apply(me.inject_discovery_event(DiscoveryEvent::Expired(ids(&["a", "b"])), &ids(&["b", "c"])), &mut view);
    assert_eq!(view, ids(&["b", "c"]));
}
