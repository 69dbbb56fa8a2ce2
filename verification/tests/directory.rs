use p2p::models::directory::PeerDirectory;
use p2p::models::peer::Peer;

fn peer(id: &str, hostname: &str, description: &str) -> Peer {
    Peer {
        id: id.to_string(),
        hostname: hostname.to_string(),
        description: description.to_string(),
    }
}

#[test]
fn new_directory_is_empty() {
    let directory = PeerDirectory::new();
    assert!(directory.is_empty());
    assert_eq!(directory.len(), 0);
    assert!(directory.peers().is_empty());
    assert!(!directory.contains(&"p1".to_string()));
    assert_eq!(directory.get(&"p1".to_string()), None);
}

#[test]
fn insert_files_a_record_under_its_id() {
    let mut directory = PeerDirectory::new();
    directory.insert(peer("p1", "h1", "d1"));
    assert!(!directory.is_empty());
    assert_eq!(directory.len(), 1);
    assert!(directory.contains(&"p1".to_string()));
    assert!(!directory.contains(&"h1".to_string()));
    assert_eq!(directory.get(&"p1".to_string()), Some(peer("p1", "h1", "d1")));
    assert_eq!(directory.peers(), vec![peer("p1", "h1", "d1")]);
}

#[test]
fn insert_replaces_the_record_of_the_same_id() {
    let mut directory = PeerDirectory::new();
    directory.insert(peer("p1", "h1", "d1"));
    directory.insert(peer("p2", "h2", "d2"));
    directory.insert(peer("p1", "moved", "changed"));
    assert_eq!(directory.len(), 2);
    assert_eq!(directory.get(&"p1".to_string()), Some(peer("p1", "moved", "changed")));
    assert_eq!(directory.get(&"p2".to_string()), Some(peer("p2", "h2", "d2")));
}

#[test]
fn insert_of_the_same_record_twice_changes_nothing() {
    let mut once = PeerDirectory::new();
    once.insert(peer("p1", "h1", "d1"));
    let mut twice = PeerDirectory::new();
    twice.insert(peer("p1", "h1", "d1"));
    twice.insert(peer("p1", "h1", "d1"));
    assert_eq!(twice.len(), 1);
    assert_eq!(twice.peers(), once.peers());
}

#[test]
fn records_with_distinct_ids_accumulate() {
    let mut directory = PeerDirectory::new();
    for n in 0..20 {
        directory.insert(peer(&format!("p{}", n), &format!("h{}", n), ""));
    }
    assert_eq!(directory.len(), 20);
    for n in 0..20 {
        assert_eq!(
            directory.get(&format!("p{}", n)),
            Some(peer(&format!("p{}", n), &format!("h{}", n), ""))
        );
    }
    assert_eq!(directory.get(&"p20".to_string()), None);
}

#[test]
fn the_empty_id_is_an_id_like_any_other() {
    let mut directory = PeerDirectory::new();
    directory.insert(peer("", "h", "d"));
    assert_eq!(directory.len(), 1);
    assert!(directory.contains(&String::new()));
    assert_eq!(directory.get(&String::new()), Some(peer("", "h", "d")));
}

#[test]
fn clear_drops_every_record() {
    let mut directory = PeerDirectory::new();
    directory.insert(peer("p1", "h1", "d1"));
    directory.insert(peer("p2", "h2", "d2"));
    directory.clear();
    assert!(directory.is_empty());
    assert_eq!(directory.len(), 0);
    assert_eq!(directory.get(&"p1".to_string()), None);
    directory.insert(peer("p3", "h3", "d3"));
    assert_eq!(directory.peers(), vec![peer("p3", "h3", "d3")]);
}

#[test]
fn clone_is_a_snapshot() {
    let mut directory = PeerDirectory::new();
    directory.insert(peer("p1", "h1", "d1"));
    let snapshot = directory.clone();
    directory.insert(peer("p2", "h2", "d2"));
    directory.insert(peer("p1", "h1", "later"));
    assert_eq!(snapshot.len(), 1);
    assert_eq!(snapshot.get(&"p1".to_string()), Some(peer("p1", "h1", "d1")));
    assert_eq!(snapshot.get(&"p2".to_string()), None);
    assert_eq!(directory.len(), 2);
}

#[test]
fn peers_lists_each_record_once() {
    let mut directory = PeerDirectory::new();
    directory.insert(peer("b", "hb", "db"));
    directory.insert(peer("a", "ha", "da"));
    directory.insert(peer("b", "hb2", "db2"));
    let mut ids: Vec<String> = directory.peers().into_iter().map(|p| p.id).collect();
    ids.sort();
    assert_eq!(ids, vec!["a".to_string(), "b".to_string()]);
}
