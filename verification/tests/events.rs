use p2p_game_engine::document::{ContentHash, ContentStatus, Entry, LiveEvent};
use p2p_game_engine::endpoint::EndpointId;
use p2p_game_engine::logic::GameLogic;
use p2p_game_engine::peer::{PeerInfo, PeerMap, PeerProfile, PeerStatus};
use p2p_game_engine::room::events::pipeline::{on_neighbor, on_sync_failed};
use p2p_game_engine::room::events::process::after_action;
use p2p_game_engine::room::events::{
    handle_event, process_entry, Content, HostEvent, NetworkEvent, Outcome, PendingEntries,
    RoomView, UiEvent,
};
use p2p_game_engine::room::state::{AppState, StateData, Write};
use p2p_game_engine::room::ChatMessage;

#[derive(Debug, PartialEq)]
struct Counter;

impl GameLogic for Counter {
    type GameState = u32;
    type GameAction = u8;
    type PlayerRole = ();
    type PlayerLeaveReason = ();
    type GameError = String;

    fn assign_roles(&self, players: &PeerMap) -> Vec<(EndpointId, ())> {
        players.ids().into_iter().map(|id| (id, ())).collect()
    }

    fn initial_state(&self, _roles: &Vec<(EndpointId, ())>) -> u32 {
        0
    }

    fn apply_action(&self, state: &mut u32, _player: &EndpointId, action: &u8) -> Result<(), String> {
        if *action == 0 {
            *state = 99;
            return Err("nothing to add".to_string());
        }
        *state += *action as u32;
        Ok(())
    }

    fn roles_for(&self, players: PeerMap) -> Vec<(EndpointId, ())> {
        self.assign_roles(&players)
    }

    fn state_from(&self, roles: Vec<(EndpointId, ())>) -> u32 {
        self.initial_state(&roles)
    }

    fn start_verdict(&self, players: PeerMap, state: u32) -> Result<(), String> {
        self.start_conditions_met(&players, &state)
    }

    fn state_after(&self, state: u32, player: EndpointId, action: u8) -> Result<u32, String> {
        let mut next = state;
        self.apply_action(&mut next, &player, &action).map(|_| next)
    }

    fn start_conditions_met(&self, _players: &PeerMap, _state: &u32) -> Result<(), String> {
        Ok(())
    }

    fn handle_player_disconnect(&self, _players: &mut PeerMap, _player: &EndpointId, _state: &mut u32) -> Result<(), String> {
        Ok(())
    }

    fn handle_player_reconnect(&self, _players: &mut PeerMap, _player: &EndpointId, _state: &mut u32) -> Result<(), String> {
        Ok(())
    }
}

fn peer(seed: u8) -> EndpointId {
    let key = iroh::SecretKey::from_bytes(&[seed; 32]).public();
    EndpointId::from_bytes(*key.as_bytes()).unwrap()
}

fn entry(key: &str, hash: u8) -> Entry {
    Entry::new(key.as_bytes().to_vec(), ContentHash::new([hash; 32]))
}

fn keyed(prefix: &str, id: EndpointId) -> Entry {
    entry(&format!("{prefix}{}", id.to_string()), 0)
}

fn record(id: EndpointId, name: &str) -> (Vec<u8>, PeerInfo) {
    (format!("peer.{}", id.to_string()).into_bytes(), PeerInfo::new(id, PeerProfile::new(name)))
}

const HOST: u8 = 1;
const CLIENT: u8 = 2;

fn view(app_state: Option<AppState>, game_state: Option<u32>) -> RoomView<Counter> {
    RoomView {
        host: Ok(Some(peer(HOST).to_string().into_bytes())),
        app_state: Ok(app_state),
        game_state: Ok(game_state),
        peers: Ok(vec![record(peer(HOST), "HostPlayer"), record(peer(CLIENT), "ClientPlayer")]),
    }
}

fn lobby() -> RoomView<Counter> {
    view(Some(AppState::Lobby), None)
}

fn run(seed: u8, entry: &Entry, content: Content<Counter>, view: RoomView<Counter>) -> Outcome<Counter> {
    let mut data = StateData::new(peer(seed));
    process_entry(entry, content, view, &mut data, &Counter)
}

fn error_of(outcome: Outcome<Counter>) -> String {
    assert!(outcome.write.is_none());
    match outcome.event {
        Some(UiEvent::Error(message)) => message,
        other => panic!("no error but {other:?}"),
    }
}

fn is_nothing(outcome: &Outcome<Counter>) -> bool {
    outcome.write.is_none() && outcome.event.is_none()
}

#[test]
fn local_and_complete_entries_are_handed_on_at_once() {
    let mut pending = PendingEntries::new();
    let local = entry("app_state", 1);
    assert_eq!(
        NetworkEvent::parse(LiveEvent::InsertLocal { entry: local.clone() }, &mut pending),
        vec![NetworkEvent::Update(local)]
    );
    let remote = entry("game_state", 2);
    let event = LiveEvent::InsertRemote {
        from: peer(1),
        entry: remote.clone(),
        content_status: ContentStatus::Complete,
    };
    assert_eq!(NetworkEvent::parse(event, &mut pending), vec![NetworkEvent::Update(remote)]);
    assert_eq!(pending.len(), 0);
    assert!(!pending.contains_key(&ContentHash::new([1; 32])));
    assert!(!pending.contains_key(&ContentHash::new([2; 32])));
}

#[test]
fn an_entry_without_its_content_waits_until_the_content_is_ready() {
    for status in [ContentStatus::Missing, ContentStatus::Incomplete] {
        let mut pending = PendingEntries::new();
        let remote = entry("game_state", 3);
        let event = LiveEvent::InsertRemote { from: peer(1), entry: remote.clone(), content_status: status };
        assert_eq!(NetworkEvent::parse(event, &mut pending), vec![]);
        assert!(pending.contains_key(&ContentHash::new([3; 32])));
        let other = LiveEvent::ContentReady { hash: ContentHash::new([4; 32]) };
        assert_eq!(NetworkEvent::parse(other, &mut pending), vec![]);
        assert!(pending.contains_key(&ContentHash::new([3; 32])));
        let ready = LiveEvent::ContentReady { hash: ContentHash::new([3; 32]) };
        assert_eq!(NetworkEvent::parse(ready, &mut pending), vec![NetworkEvent::Update(remote)]);
        assert!(!pending.contains_key(&ContentHash::new([3; 32])));
        let again = LiveEvent::ContentReady { hash: ContentHash::new([3; 32]) };
        assert_eq!(NetworkEvent::parse(again, &mut pending), vec![]);
    }
}

#[test]
fn entries_that_wait_for_the_same_content_are_all_handed_on_in_their_order() {
    let first = entry(&format!("action.{}", peer(1).to_string()), 5);
    let between = entry("app_state", 6);
    let second = entry(&format!("action.{}", peer(2).to_string()), 5);
    let mut pending = PendingEntries::new();
    for waiting in [&first, &between, &second] {
        let event = LiveEvent::InsertRemote {
            from: peer(9),
            entry: waiting.clone(),
            content_status: ContentStatus::Missing,
        };
        assert_eq!(NetworkEvent::parse(event, &mut pending), vec![]);
    }
    assert_eq!(pending.len(), 3);
    let ready = LiveEvent::ContentReady { hash: ContentHash::new([5; 32]) };
    assert_eq!(
        NetworkEvent::parse(ready, &mut pending),
        vec![NetworkEvent::Update(first), NetworkEvent::Update(second)]
    );
    assert_eq!(pending.len(), 1);
    assert!(!pending.contains_key(&ContentHash::new([5; 32])));
    assert!(pending.contains_key(&ContentHash::new([6; 32])));
    let again = LiveEvent::ContentReady { hash: ContentHash::new([5; 32]) };
    assert_eq!(NetworkEvent::parse(again, &mut pending), vec![]);
    let ready = LiveEvent::ContentReady { hash: ContentHash::new([6; 32]) };
    assert_eq!(NetworkEvent::parse(ready, &mut pending), vec![NetworkEvent::Update(between)]);
    assert_eq!(pending.len(), 0);
}

#[test]
fn the_table_of_waiting_entries_keeps_the_order_of_arrival() {
    let mut pending = PendingEntries::new();
    pending.insert(entry("game_state", 5));
    pending.insert(entry("app_state", 6));
    pending.insert(entry("host_id", 5));
    pending.insert(entry("game_state", 5));
    assert_eq!(
        pending.remove(&ContentHash::new([5; 32])),
        vec![entry("game_state", 5), entry("host_id", 5), entry("game_state", 5)]
    );
    assert_eq!(pending.remove(&ContentHash::new([5; 32])), vec![]);
    assert_eq!(pending.remove(&ContentHash::new([6; 32])), vec![entry("app_state", 6)]);
    assert_eq!(pending.remove(&ContentHash::new([7; 32])), vec![]);
    assert_eq!(pending.len(), 0);
}

#[test]
fn neighbours_and_syncs_become_events_for_the_room() {
    let mut pending = PendingEntries::new();
    assert_eq!(
        NetworkEvent::parse(LiveEvent::NeighborUp(peer(1)), &mut pending),
        vec![NetworkEvent::Joiner(peer(1))]
    );
    assert_eq!(
        NetworkEvent::parse(LiveEvent::NeighborDown(peer(1)), &mut pending),
        vec![NetworkEvent::Leaver(peer(1))]
    );
    assert_eq!(
        NetworkEvent::parse(LiveEvent::SyncFinished { peer: peer(1), failure: None }, &mut pending),
        vec![NetworkEvent::SyncSucceeded]
    );
    let failed = LiveEvent::SyncFinished { peer: peer(1), failure: Some("timeout".to_string()) };
    assert_eq!(
        NetworkEvent::parse(failed, &mut pending),
        vec![NetworkEvent::SyncFailed("timeout".to_string())]
    );
    assert_eq!(NetworkEvent::parse(LiveEvent::PendingContentReady, &mut pending), vec![]);
}

#[test]
fn the_host_admits_a_peer_that_announces_itself() {
    let joiner = peer(3);
    let join = keyed("join_request.", joiner);
    let outcome = run(HOST, &join, Content::Profile(PeerProfile::new("New")), lobby());
    assert!(outcome.event.is_none());
    let Some(Write::Peer { id, info }) = outcome.write else { panic!("no record written") };
    assert_eq!(id, joiner);
    assert_eq!(
        info,
        PeerInfo {
            id: joiner,
            profile: PeerProfile::new("New"),
            status: PeerStatus::Online,
            ready: false,
            is_observer: false,
        }
    );
}

#[test]
fn a_peer_admitted_during_the_game_is_an_observer() {
    let join = keyed("join_request.", peer(3));
    let in_game = view(Some(AppState::InGame), Some(0));
    let outcome = run(HOST, &join, Content::Profile(PeerProfile::new("Late")), in_game);
    let Some(Write::Peer { info, .. }) = outcome.write else { panic!("no record written") };
    assert!(info.is_observer);
    for state in [Some(AppState::Lobby), Some(AppState::Finished), Some(AppState::Paused), None] {
        let outcome = run(HOST, &join, Content::Profile(PeerProfile::new("Early")), view(state, None));
        let Some(Write::Peer { info, .. }) = outcome.write else { panic!("no record written") };
        assert!(!info.is_observer);
    }
}

#[test]
fn only_the_host_reacts_to_announcements_and_requests() {
    let join = keyed("join_request.", peer(3));
    assert!(is_nothing(&run(CLIENT, &join, Content::Profile(PeerProfile::new("New")), lobby())));
    let action = keyed("action.", peer(3));
    assert!(is_nothing(&run(CLIENT, &action, Content::Action(1), view(Some(AppState::InGame), Some(0)))));
    assert!(is_nothing(&run(CLIENT, &entry("join_request.nobody", 0), Content::Unread, lobby())));
    let mut no_host = lobby();
    no_host.host = Ok(None);
    assert!(is_nothing(&run(HOST, &join, Content::Profile(PeerProfile::new("New")), no_host)));
    let mut unreadable = lobby();
    unreadable.host = Err("no route".to_string());
    assert_eq!(error_of(run(HOST, &join, Content::Profile(PeerProfile::new("New")), unreadable)), "no route");
}

#[test]
fn the_host_reports_announcements_that_it_cannot_read() {
    let joiner = peer(3);
    let text = joiner.to_string();
    let join = keyed("join_request.", joiner);
    assert_eq!(
        error_of(run(HOST, &join, Content::Failed("bad bytes".to_string()), lobby())),
        format!("Failed to parse PeerInfo for {text}: bad bytes")
    );
    assert_eq!(
        error_of(run(HOST, &join, Content::AppState(AppState::Lobby), lobby())),
        format!("Failed to parse PeerInfo for {text}: unexpected content")
    );
    let error = error_of(run(HOST, &entry("join_request.nobody", 0), Content::Profile(PeerProfile::new("x")), lobby()));
    assert!(error.starts_with("Invalid EndpointId from key nobody: "));
}

#[test]
fn the_host_applies_an_action_and_writes_the_new_state() {
    let action = keyed("action.", peer(CLIENT));
    let outcome = run(HOST, &action, Content::Action(1), view(Some(AppState::InGame), Some(0)));
    assert!(outcome.event.is_none());
    assert!(matches!(outcome.write, Some(Write::GameState(1))));
    let outcome = run(HOST, &action, Content::Action(5), view(Some(AppState::InGame), Some(37)));
    assert!(matches!(outcome.write, Some(Write::GameState(42))));
}

#[test]
fn the_host_reports_an_action_that_the_game_rejects_and_writes_nothing() {
    let action = keyed("action.", peer(CLIENT));
    let outcome = run(HOST, &action, Content::Action(0), view(Some(AppState::InGame), Some(3)));
    assert_eq!(error_of(outcome), "Invalid action from ClientPlayer: nothing to add");
    let stranger = keyed("action.", peer(9));
    let outcome = run(HOST, &stranger, Content::Action(0), view(Some(AppState::InGame), Some(3)));
    assert_eq!(error_of(outcome), "Invalid action from Unknown: nothing to add");
}

#[test]
fn the_host_reports_requests_that_it_cannot_serve() {
    let action = keyed("action.", peer(CLIENT));
    assert_eq!(error_of(run(HOST, &action, Content::Action(1), lobby())), "No GameState found");
    let mut unreadable = view(Some(AppState::InGame), None);
    unreadable.game_state = Err("state is garbage".to_string());
    assert_eq!(error_of(run(HOST, &action, Content::Action(1), unreadable)), "state is garbage");
    assert_eq!(
        error_of(run(HOST, &action, Content::Failed("eof".to_string()), view(Some(AppState::InGame), Some(0)))),
        "Failed to parse GameAction from ClientPlayer: eof"
    );
    let mut no_names = view(Some(AppState::InGame), Some(0));
    no_names.peers = Err("records unreadable".to_string());
    assert_eq!(error_of(run(HOST, &action, Content::Action(0), no_names)), "records unreadable");
    let error = error_of(run(HOST, &entry("action.zz", 0), Content::Action(1), view(None, Some(0))));
    assert!(error.starts_with("Invalid EndpointId from key zz: "));
}

#[test]
fn the_verdict_of_the_game_decides_what_the_host_does() {
    let data: StateData<Counter> = StateData::new(peer(HOST));
    let peers = Ok(vec![record(peer(CLIENT), "ClientPlayer")]);
    let accepted = after_action(&data, Ok(()), 7, &peer(CLIENT), &peers);
    assert!(accepted.event.is_none());
    assert!(matches!(accepted.write, Some(Write::GameState(7))));
    let rejected = after_action(&data, Err("no".to_string()), 7, &peer(CLIENT), &peers);
    assert_eq!(error_of(rejected), "Invalid action from ClientPlayer: no");
    let nameless = after_action(&data, Err("no".to_string()), 7, &peer(CLIENT), &Err("gone".to_string()));
    assert_eq!(error_of(nameless), "gone");
}

#[test]
fn every_peer_tells_its_user_of_a_chat_message() {
    let sender = peer(CLIENT);
    let chat = entry(&format!("chat.1700000000123.{}", sender.to_string()), 0);
    for seed in [HOST, CLIENT, 7] {
        let sent = ChatMessage::at(sender, "hi", 1700000000123);
        let outcome = run(seed, &chat, Content::Chat(sent), lobby());
        assert!(outcome.write.is_none());
        assert_eq!(
            outcome.event,
            Some(UiEvent::Chat {
                sender: "ClientPlayer".to_string(),
                msg: ChatMessage::at(sender, "hi", 1700000000123),
            })
        );
    }
    assert_eq!(
        error_of(run(CLIENT, &chat, Content::Failed("eof".to_string()), lobby())),
        "Failed to parse ChatMessage from ClientPlayer: eof"
    );
    let mut no_names = lobby();
    no_names.peers = Err("records unreadable".to_string());
    let sent = ChatMessage::at(sender, "hi", 1);
    assert_eq!(error_of(run(CLIENT, &chat, Content::Chat(sent), no_names)), "records unreadable");
    let error = error_of(run(CLIENT, &entry("chat.17.nobody", 0), Content::Unread, lobby()));
    assert!(error.starts_with("Invalid EndpointId from key nobody: "));
}

#[test]
fn every_peer_tells_its_user_the_peers_when_a_record_changed() {
    let changed = keyed("peer.", peer(CLIENT));
    for seed in [HOST, CLIENT] {
        let outcome = run(seed, &changed, Content::Unread, lobby());
        assert!(outcome.write.is_none());
        let Some(UiEvent::Peer(list)) = outcome.event else { panic!("no peers told") };
        assert_eq!(list.len(), 2);
        assert_eq!(list.get(&peer(HOST)).unwrap().profile.nickname, "HostPlayer");
        assert_eq!(list.get(&peer(CLIENT)).unwrap().profile.nickname, "ClientPlayer");
    }
    let mut unreadable = lobby();
    unreadable.peers = Err("no route".to_string());
    assert_eq!(
        error_of(run(CLIENT, &changed, Content::Unread, unreadable)),
        "Failed to get peers list after update: no route"
    );
    let mut broken = lobby();
    broken.peers = Ok(vec![(b"peer.nobody".to_vec(), PeerInfo::new(peer(3), PeerProfile::new("x")))]);
    let error = error_of(run(CLIENT, &changed, Content::Unread, broken));
    assert!(error.starts_with("Failed to get peers list after update: Invalid EndpointId from key nobody: "));
}

#[test]
fn a_peer_that_has_lost_the_host_tells_its_user_so_in_the_peers() {
    let changed = keyed("peer.", peer(CLIENT));
    let mut data: StateData<Counter> = StateData::new(peer(CLIENT));
    data.host_offline();
    let outcome = process_entry(&changed, Content::Unread, lobby(), &mut data, &Counter);
    let Some(UiEvent::Peer(list)) = outcome.event else { panic!("no peers told") };
    assert_eq!(list.get(&peer(HOST)).unwrap().status, PeerStatus::Offline);
    assert_eq!(list.get(&peer(CLIENT)).unwrap().status, PeerStatus::Online);
    assert!(data.is_host_disconnected());
}

#[test]
fn every_peer_tells_its_user_the_states_that_the_host_wrote() {
    let outcome = run(CLIENT, &entry("game_state", 0), Content::GameState(4), lobby());
    assert!(outcome.write.is_none());
    assert_eq!(outcome.event, Some(UiEvent::GameState(4)));
    assert_eq!(
        error_of(run(CLIENT, &entry("game_state", 0), Content::Failed("eof".to_string()), lobby())),
        "Failed to parse GameState: eof"
    );
    let outcome = run(CLIENT, &entry("app_state", 0), Content::AppState(AppState::InGame), lobby());
    assert!(outcome.write.is_none());
    assert_eq!(outcome.event, Some(UiEvent::AppState(AppState::InGame)));
    assert_eq!(
        error_of(run(CLIENT, &entry("app_state", 0), Content::GameState(1), lobby())),
        "Failed to parse AppState: unexpected content"
    );
    let mut data: StateData<Counter> = StateData::new(peer(CLIENT));
    data.host_offline();
    let outcome = process_entry(&entry("app_state", 0), Content::AppState(AppState::Finished), lobby(), &mut data, &Counter);
    assert_eq!(outcome.event, Some(UiEvent::AppState(AppState::Finished)));
    assert!(data.is_host_disconnected());
}

#[test]
fn news_of_a_host_puts_the_host_in_reach_and_names_it() {
    let mut data: StateData<Counter> = StateData::new(peer(CLIENT));
    data.host_offline();
    let content = Content::HostId(peer(HOST).to_string().into_bytes());
    let outcome = process_entry(&entry("host_id", 0), content, lobby(), &mut data, &Counter);
    assert!(outcome.write.is_none());
    assert_eq!(
        outcome.event,
        Some(UiEvent::Host(HostEvent::Changed { to: "HostPlayer".to_string() }))
    );
    assert!(!data.is_host_disconnected());
    let stranger = Content::HostId(peer(9).to_string().into_bytes());
    let outcome = process_entry(&entry("host_id", 0), stranger, lobby(), &mut data, &Counter);
    assert_eq!(outcome.event, Some(UiEvent::Host(HostEvent::Changed { to: "Unknown".to_string() })));
}

#[test]
fn news_of_a_host_that_cannot_be_read_is_reported() {
    let mut data: StateData<Counter> = StateData::new(peer(CLIENT));
    data.host_offline();
    let outcome = process_entry(&entry("host_id", 0), Content::Failed("eof".to_string()), lobby(), &mut data, &Counter);
    assert_eq!(error_of(outcome), "Failed to parse HostId: eof");
    assert!(data.is_host_disconnected());
    let outcome = process_entry(&entry("host_id", 0), Content::HostId(b"junk".to_vec()), lobby(), &mut data, &Counter);
    assert!(error_of(outcome).starts_with("Invalid EndpointId from key junk: "));
    assert!(!data.is_host_disconnected());
}

#[test]
fn an_announcement_that_a_peer_leaves_changes_nothing_yet() {
    for seed in [HOST, CLIENT] {
        assert!(is_nothing(&run(seed, &keyed("quit_request.", peer(CLIENT)), Content::Unread, lobby())));
        assert!(is_nothing(&run(seed, &keyed("quit_request.", peer(seed)), Content::Unread, lobby())));
    }
    let error = error_of(run(CLIENT, &entry("quit_request.nobody", 0), Content::Unread, lobby()));
    assert!(error.starts_with("Invalid EndpointId from key nobody: "));
}

#[test]
fn an_unknown_entry_changes_nothing() {
    assert!(is_nothing(&run(HOST, &entry("players", 0), Content::Unread, lobby())));
    assert!(is_nothing(&run(CLIENT, &entry("", 0), Content::GameState(3), lobby())));
}

#[test]
fn the_host_keeps_the_status_of_its_neighbours() {
    let peers = Ok(vec![record(peer(HOST), "HostPlayer"), record(peer(CLIENT), "ClientPlayer")]);
    let host = Ok(Some(peer(HOST).to_string().into_bytes()));
    let mut data: StateData<Counter> = StateData::new(peer(HOST));
    let outcome = on_neighbor(&mut data, peer(CLIENT), PeerStatus::Offline, &host, &peers);
    assert!(outcome.event.is_none());
    let Some(Write::Peer { id, info }) = outcome.write else { panic!("no record written") };
    assert_eq!(id, peer(CLIENT));
    assert_eq!(info, PeerInfo { status: PeerStatus::Offline, ..PeerInfo::new(peer(CLIENT), PeerProfile::new("ClientPlayer")) });
    let outcome = on_neighbor(&mut data, peer(CLIENT), PeerStatus::Online, &host, &peers);
    let Some(Write::Peer { info, .. }) = outcome.write else { panic!("no record written") };
    assert_eq!(info.status, PeerStatus::Online);
    assert!(is_nothing(&on_neighbor(&mut data, peer(9), PeerStatus::Offline, &host, &peers)));
    assert!(is_nothing(&on_neighbor(&mut data, peer(CLIENT), PeerStatus::Offline, &host, &Err("gone".to_string()))));
    assert!(!data.is_host_disconnected());
}

#[test]
fn a_client_pauses_when_the_host_leaves_and_resumes_when_it_returns() {
    let peers = Ok(vec![record(peer(HOST), "HostPlayer"), record(peer(CLIENT), "ClientPlayer")]);
    let host = Ok(Some(peer(HOST).to_string().into_bytes()));
    let mut data: StateData<Counter> = StateData::new(peer(CLIENT));
    let outcome = on_neighbor(&mut data, peer(7), PeerStatus::Offline, &host, &peers);
    assert!(is_nothing(&outcome));
    assert!(!data.is_host_disconnected());
    let outcome = on_neighbor(&mut data, peer(HOST), PeerStatus::Offline, &host, &peers);
    assert!(outcome.write.is_none());
    assert_eq!(outcome.event, Some(UiEvent::Host(HostEvent::Offline)));
    assert!(data.is_host_disconnected());
    assert_eq!(data.get_app_state(Ok(Some(AppState::InGame))), Ok(AppState::Paused));
    let outcome = on_neighbor(&mut data, peer(7), PeerStatus::Online, &host, &peers);
    assert!(is_nothing(&outcome));
    assert!(data.is_host_disconnected());
    let outcome = on_neighbor(&mut data, peer(HOST), PeerStatus::Online, &host, &peers);
    assert_eq!(outcome.event, Some(UiEvent::Host(HostEvent::Online)));
    assert!(!data.is_host_disconnected());
    assert_eq!(data.get_app_state(Ok(Some(AppState::InGame))), Ok(AppState::InGame));
    let outcome = on_neighbor(&mut data, peer(HOST), PeerStatus::Offline, &Err("no route".to_string()), &peers);
    assert!(is_nothing(&outcome));
    assert!(!data.is_host_disconnected());
}

#[test]
fn a_failed_sync_is_reported() {
    let outcome: Outcome<Counter> = on_sync_failed("timeout".to_string());
    assert_eq!(error_of(outcome), "Sync failed: timeout");
}

#[test]
fn each_event_goes_to_its_reaction() {
    let mut data: StateData<Counter> = StateData::new(peer(CLIENT));
    let update = NetworkEvent::Update(entry("game_state", 0));
    let outcome = handle_event(update, Content::GameState(2), lobby(), &mut data, &Counter);
    assert_eq!(outcome.event, Some(UiEvent::GameState(2)));
    let outcome = handle_event(NetworkEvent::Leaver(peer(HOST)), Content::Unread, lobby(), &mut data, &Counter);
    assert_eq!(outcome.event, Some(UiEvent::Host(HostEvent::Offline)));
    assert!(data.is_host_disconnected());
    let outcome = handle_event(NetworkEvent::Joiner(peer(HOST)), Content::Unread, lobby(), &mut data, &Counter);
    assert_eq!(outcome.event, Some(UiEvent::Host(HostEvent::Online)));
    assert!(!data.is_host_disconnected());
    let failed = NetworkEvent::SyncFailed("timeout".to_string());
    assert_eq!(error_of(handle_event(failed, Content::Unread, lobby(), &mut data, &Counter)), "Sync failed: timeout");
    assert!(is_nothing(&handle_event(NetworkEvent::SyncSucceeded, Content::Unread, lobby(), &mut data, &Counter)));
}

#[test]
fn events_in_words() {
    let mut peers = PeerMap::new();
    peers.insert(peer(HOST), PeerInfo::new(peer(HOST), PeerProfile::new("HostPlayer")));
    let line = format!("[{}...]: 'HostPlayer'\n", &peer(HOST).to_string()[..10]);
    let event: UiEvent<Counter> = UiEvent::Peer(peers);
    assert_eq!(event.to_string(), format!("PeerUpdated({line})"));
    let event: UiEvent<Counter> = UiEvent::GameState(3);
    assert_eq!(event.to_string(), "GameStateUpdated(3)");
    let event: UiEvent<Counter> = UiEvent::AppState(AppState::InGame);
    assert_eq!(event.to_string(), "AppStateChanged(InGame)");
    let sent = ChatMessage::at(peer(HOST), "hi", 5);
    let event: UiEvent<Counter> = UiEvent::Chat { sender: "HostPlayer".to_string(), msg: sent.clone() };
    assert_eq!(event.to_string(), format!("Chat({sent:?})"));
    let event: UiEvent<Counter> = UiEvent::Host(HostEvent::Changed { to: "Ada".to_string() });
    assert_eq!(event.to_string(), "HostSet(Ada)");
    let event: UiEvent<Counter> = UiEvent::Host(HostEvent::Offline);
    assert_eq!(event.to_string(), "HostOffline");
    let event: UiEvent<Counter> = UiEvent::Host(HostEvent::Online);
    assert_eq!(event.to_string(), "HostOnline");
    let event: UiEvent<Counter> = UiEvent::Error("oops".to_string());
    assert_eq!(event.to_string(), "Error(oops)");
}
