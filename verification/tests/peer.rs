use p2p_game_engine::endpoint::EndpointId;
use p2p_game_engine::peer::{PeerInfo, PeerMap, PeerProfile, PeerStatus};

fn peer(seed: u8) -> EndpointId {
    let key = iroh::SecretKey::from_bytes(&[seed; 32]).public();
    EndpointId::from_bytes(*key.as_bytes()).unwrap()
}

#[test]
fn a_new_record_is_online_not_ready_and_observing() {
    let id = peer(1);
    let info = PeerInfo::new(id, PeerProfile::new("Ada"));
    assert_eq!(info.id, id);
    assert_eq!(info.profile.nickname, "Ada");
    assert_eq!(info.profile.avatar, None);
    assert_eq!(info.status, PeerStatus::Online);
    assert!(!info.ready);
    assert!(info.is_observer);
    assert_eq!(info.to_string(), "Ada");
}

#[test]
fn a_name_makes_a_profile() {
    let profile: PeerProfile = "Grace".into();
    assert_eq!(profile, PeerProfile { nickname: "Grace".to_string(), avatar: None });
    assert_eq!(PeerProfile::from("Grace"), PeerProfile::new("Grace"));
}

#[test]
fn copies_are_equal_to_what_they_copy() {
    let profile = PeerProfile { nickname: "Ada".to_string(), avatar: Some("pic".to_string()) };
    assert_eq!(profile.duplicate(), profile);
    let info = PeerInfo::new(peer(2), profile);
    assert_eq!(info.duplicate(), info);
    let offline = info.duplicate().with_status(PeerStatus::Offline);
    assert_eq!(offline.status, PeerStatus::Offline);
    assert_eq!(offline.profile, info.profile);
    assert_eq!(offline.id, info.id);
    assert_eq!(offline.is_observer, info.is_observer);
}

#[test]
fn a_map_holds_one_record_for_each_identity() {
    let a = peer(3);
    let b = peer(4);
    let mut peers = PeerMap::new();
    assert_eq!(peers.len(), 0);
    assert!(!peers.contains_key(&a));
    assert_eq!(peers.get(&a), None);
    assert_eq!(peers.insert(a, PeerInfo::new(a, PeerProfile::new("Ada"))), None);
    assert_eq!(peers.insert(b, PeerInfo::new(b, PeerProfile::new("Bob"))), None);
    assert_eq!(peers.len(), 2);
    assert!(peers.contains_key(&a));
    assert!(peers.contains_key(&b));
    assert_eq!(peers.get(&b).unwrap().profile.nickname, "Bob");
    let before = peers.insert(a, PeerInfo::new(a, PeerProfile::new("Ada2")));
    assert_eq!(before.unwrap().profile.nickname, "Ada");
    assert_eq!(peers.len(), 2);
    assert_eq!(peers.get(&a).unwrap().profile.nickname, "Ada2");
    assert_eq!(peers.get(&b).unwrap().profile.nickname, "Bob");
    assert_eq!(peers.ids(), vec![a, b]);
    let names: Vec<String> = peers.values().into_iter().map(|info| info.profile.nickname).collect();
    assert_eq!(names, vec!["Ada2".to_string(), "Bob".to_string()]);
}

#[test]
fn a_record_that_is_set_anew_keeps_its_place() {
    let ids = [peer(11), peer(12), peer(13)];
    let mut peers = PeerMap::new();
    for (id, name) in ids.iter().zip(["a", "b", "c"]) {
        peers.insert(*id, PeerInfo::new(*id, PeerProfile::new(name)));
    }
    peers.insert(ids[1], PeerInfo::new(ids[1], PeerProfile::new("B")));
    peers.insert(ids[0], PeerInfo::new(ids[0], PeerProfile::new("A")));
    assert_eq!(peers.ids(), ids.to_vec());
    let names: Vec<String> = peers.values().into_iter().map(|info| info.profile.nickname).collect();
    assert_eq!(names, vec!["A".to_string(), "B".to_string(), "c".to_string()]);
}

#[test]
fn a_map_in_words() {
    let a = peer(5);
    let b = peer(6);
    let mut peers = PeerMap::default();
    assert_eq!(peers.to_string(), "");
    peers.insert(a, PeerInfo::new(a, PeerProfile::new("Ada")));
    peers.insert(b, PeerInfo::new(b, PeerProfile::new("Bob")));
    let expected = format!(
        "[{}...]: 'Ada'\n[{}...]: 'Bob'\n",
        &a.to_string()[..10],
        &b.to_string()[..10]
    );
    assert_eq!(peers.to_string(), expected);
}

#[test]
fn a_cloned_map_is_equal_and_apart() {
    let a = peer(7);
    let mut peers = PeerMap::new();
    peers.insert(a, PeerInfo::new(a, PeerProfile::new("Ada")));
    let mut copy = peers.clone();
    assert_eq!(copy, peers);
    copy.insert(a, PeerInfo::new(a, PeerProfile::new("Eve")));
    assert_eq!(peers.get(&a).unwrap().profile.nickname, "Ada");
    assert_ne!(copy, peers);
}
