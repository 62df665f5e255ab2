use lfg_chat::command::{parse_command, Command};
use lfg_chat::listing::{room_list_frame, rooms_frame};
use lfg_chat::notice::{
    already_in_room, changing_room, chat_line, joined_notice, left_notice, room_created,
    room_welcome, welcome,
};
use lfg_chat::registry::{RoomRegistry, DEFAULT_ROOM_CAPACITY, ROOM_CAPACITY};
use lfg_chat::session::{Event, Outcome, Session};
use tokio::sync::broadcast::error::TryRecvError;
use tokio::sync::broadcast::Receiver;

/// Does what a connection handler does with an outcome: resubscribe, then publish.
fn apply(reg: &RoomRegistry, out: &Outcome, rx: &mut Receiver<String>) {
    if let Some(i) = out.subscribe {
        *rx = reg.sender(i).subscribe();
    }
    for p in &out.publishes {
        reg.publish(p.room, p.text.clone());
    }
}

fn connect(reg: &mut RoomRegistry, name: &str) -> (Session, Outcome, Receiver<String>) {
    let (s, out) = Session::start(name.to_string(), reg).ok().expect("room list encodes");
    let mut rx = reg.sender(s.current_room()).subscribe();
    apply(reg, &out, &mut rx);
    (s, out, rx)
}

fn frame(s: &mut Session, reg: &mut RoomRegistry, rx: &mut Receiver<String>, text: &str) -> Outcome {
    let out = s.step(reg, Event::Frame(text.to_string()));
    apply(reg, &out, rx);
    out
}

fn drain(rx: &mut Receiver<String>) -> Vec<String> {
    let mut got = Vec::new();
    loop {
        match rx.try_recv() {
            Ok(m) => got.push(m),
            Err(TryRecvError::Empty) => return got,
            Err(e) => panic!("unexpected receive error: {e:?}"),
        }
    }
}

#[test]
fn parse_create_join_and_chat() {
    assert!(matches!(parse_command("/create Lounge"), Command::Create(n) if n == "Lounge"));
    assert!(matches!(parse_command("/join Lounge"), Command::Join(n) if n == "Lounge"));
    assert!(matches!(parse_command("hello"), Command::Chat(t) if t == "hello"));
    assert!(matches!(parse_command("/create"), Command::Chat(t) if t == "/create"));
    assert!(matches!(parse_command("/join"), Command::Chat(t) if t == "/join"));
    assert!(matches!(parse_command("/create "), Command::Create(n) if n.is_empty()));
    assert!(matches!(parse_command("/join a b"), Command::Join(n) if n == "a b"));
    assert!(matches!(parse_command("/Join x"), Command::Chat(t) if t == "/Join x"));
    assert!(matches!(parse_command(""), Command::Chat(t) if t.is_empty()));
    assert!(matches!(parse_command("/join café"), Command::Join(n) if n == "café"));
}

#[test]
fn notice_texts() {
    assert_eq!(chat_line("alice", "hello"), "alice: hello");
    assert_eq!(left_notice("bob"), "bob has left the room.");
    assert_eq!(joined_notice("bob"), "bob has joined the room.");
    assert_eq!(welcome("alice"), "Welcome to LFG, alice! Create or join a room and send messages!");
    assert_eq!(room_welcome("General"), "Welcome to the room: General");
    assert_eq!(room_created("Lounge"), "Room created: Lounge");
    assert_eq!(changing_room("Lounge"), "Changing to room: Lounge");
    assert_eq!(already_in_room("Lounge"), "You are already in the room: Lounge");
}

#[test]
fn room_list_frames() {
    assert_eq!(rooms_frame("[]"), "rooms:[]");
    assert_eq!(room_list_frame(&Vec::new()).ok().unwrap(), "rooms:[]");
    let names = vec!["General".to_string(), "Lounge".to_string()];
    assert_eq!(room_list_frame(&names).ok().unwrap(), "rooms:[\"General\",\"Lounge\"]");
    let quoted = vec!["a\"b".to_string()];
    assert_eq!(room_list_frame(&quoted).ok().unwrap(), "rooms:[\"a\\\"b\"]");
}

#[test]
fn get_or_create_gives_one_room_per_name() {
    let mut reg = RoomRegistry::new();
    assert_eq!(reg.find("Lounge"), None);
    let first = reg.get_or_create("Lounge", ROOM_CAPACITY);
    for _ in 0..10 {
        assert_eq!(reg.get_or_create("Lounge", DEFAULT_ROOM_CAPACITY), first);
    }
    assert_eq!(reg.find("Lounge"), Some(first));
    let names = reg.list_names();
    assert_eq!(names.iter().filter(|n| n.as_str() == "Lounge").count(), 1);
    assert_eq!(reg.len(), 1);
    let other = reg.get_or_create("lounge", ROOM_CAPACITY);
    assert_ne!(other, first);
    assert_eq!(reg.list_names(), vec!["Lounge".to_string(), "lounge".to_string()]);
}

#[test]
fn publish_without_subscribers_is_dropped() {
    let mut reg = RoomRegistry::new();
    let i = reg.get_or_create("Empty", ROOM_CAPACITY);
    assert!(!reg.publish(i, "nobody hears".to_string()));
    let mut rx = reg.sender(i).subscribe();
    assert!(reg.publish(i, "now someone does".to_string()));
    assert_eq!(drain(&mut rx), vec!["now someone does".to_string()]);
}

#[test]
fn start_lists_rooms_and_welcomes() {
    let mut reg = RoomRegistry::new();
    let (s, out, _rx) = connect(&mut reg, "alice");
    assert_eq!(
        out.replies,
        vec![
            "rooms:[]".to_string(),
            "Welcome to LFG, alice! Create or join a room and send messages!".to_string(),
            "Welcome to the room: General".to_string(),
        ]
    );
    assert!(out.publishes.is_empty());
    assert_eq!(reg.name(s.current_room()), "General");
    assert_eq!(s.username(), "alice");
    let (_s2, out2, _rx2) = connect(&mut reg, "bob");
    assert_eq!(out2.replies[0], "rooms:[\"General\"]");
    assert_eq!(reg.len(), 1);
}

#[test]
fn join_same_room_twice_is_rejected() {
    let mut reg = RoomRegistry::new();
    let (mut s, _, mut rx) = connect(&mut reg, "alice");
    let (_b, _, mut brx) = connect(&mut reg, "bob");
    frame(&mut s, &mut reg, &mut rx, "/join X");
    let x = s.current_room();
    let rooms_before = reg.list_names();
    drain(&mut rx);
    drain(&mut brx);
    let out = frame(&mut s, &mut reg, &mut rx, "/join X");
    assert_eq!(out.replies, vec!["You are already in the room: X".to_string()]);
    assert!(out.publishes.is_empty());
    assert!(out.subscribe.is_none());
    assert_eq!(s.current_room(), x);
    assert_eq!(reg.list_names(), rooms_before);
    assert!(drain(&mut rx).is_empty());
}

#[test]
fn join_current_room_by_name() {
    let mut reg = RoomRegistry::new();
    let (mut s, _, mut rx) = connect(&mut reg, "alice");
    let out = frame(&mut s, &mut reg, &mut rx, "/join General");
    assert_eq!(out.replies, vec!["You are already in the room: General".to_string()]);
    assert!(out.publishes.is_empty());
}

#[test]
fn messages_stay_in_their_room() {
    let mut reg = RoomRegistry::new();
    let (mut a, _, mut arx) = connect(&mut reg, "alice");
    let (mut b, _, mut brx) = connect(&mut reg, "bob");
    frame(&mut b, &mut reg, &mut brx, "/join R2");
    drain(&mut arx);
    drain(&mut brx);
    let out = frame(&mut a, &mut reg, &mut arx, "only for general");
    assert_eq!(out.publishes.len(), 1);
    assert_eq!(out.publishes[0].room, a.current_room());
    assert!(drain(&mut brx).is_empty());
    assert_eq!(drain(&mut arx), vec!["alice: only for general".to_string()]);
}

#[test]
fn member_without_join_stays_in_general() {
    let mut reg = RoomRegistry::new();
    let (mut a, _, mut arx) = connect(&mut reg, "alice");
    let (mut b, _, mut brx) = connect(&mut reg, "bob");
    let general = a.current_room();
    frame(&mut a, &mut reg, &mut arx, "/create Side");
    frame(&mut a, &mut reg, &mut arx, "hi");
    frame(&mut b, &mut reg, &mut brx, "one");
    frame(&mut b, &mut reg, &mut brx, "two");
    assert_eq!(a.current_room(), general);
    let got = drain(&mut arx);
    assert_eq!(got, vec!["alice: hi".to_string(), "bob: one".to_string(), "bob: two".to_string()]);
    let fwd = a.step(&mut reg, Event::Broadcast(got[1].clone()));
    assert_eq!(fwd.replies, vec!["bob: one".to_string()]);
    assert!(fwd.publishes.is_empty());
    assert_eq!(a.current_room(), general);
}

#[test]
fn switching_rooms_notifies_both_sides() {
    let mut reg = RoomRegistry::new();
    let (mut a, _, mut arx) = connect(&mut reg, "alice");
    let (mut b, _, mut brx) = connect(&mut reg, "bob");
    let (mut c, _, mut crx) = connect(&mut reg, "carol");
    frame(&mut c, &mut reg, &mut crx, "/join B");
    drain(&mut arx);
    drain(&mut brx);
    drain(&mut crx);
    let general = a.current_room();
    let out = frame(&mut a, &mut reg, &mut arx, "/join B");
    assert_eq!(out.replies, vec!["Changing to room: B".to_string()]);
    assert_eq!(out.subscribe, Some(c.current_room()));
    assert_ne!(a.current_room(), general);
    assert_eq!(drain(&mut brx), vec!["alice has left the room.".to_string()]);
    assert_eq!(drain(&mut crx), vec!["alice has joined the room.".to_string()]);
    assert_eq!(drain(&mut arx), vec!["alice has joined the room.".to_string()]);
    frame(&mut b, &mut reg, &mut brx, "general talk");
    assert!(drain(&mut arx).is_empty());
    frame(&mut c, &mut reg, &mut crx, "room b talk");
    assert_eq!(drain(&mut arx), vec!["carol: room b talk".to_string()]);
}

#[test]
fn end_to_end_alice() {
    let mut reg = RoomRegistry::new();
    let (mut a, out, mut arx) = connect(&mut reg, "alice");
    assert!(out.replies[0].starts_with("rooms:["));
    assert_eq!(out.replies[1], "Welcome to LFG, alice! Create or join a room and send messages!");
    assert_eq!(out.replies[2], "Welcome to the room: General");
    let (_b, _, mut brx) = connect(&mut reg, "bob");
    frame(&mut a, &mut reg, &mut arx, "hello");
    assert_eq!(drain(&mut brx), vec!["alice: hello".to_string()]);
    let created = frame(&mut a, &mut reg, &mut arx, "/create Lounge");
    assert_eq!(created.replies, vec!["Room created: Lounge".to_string()]);
    assert!(created.subscribe.is_none());
    assert!(reg.list_names().contains(&"Lounge".to_string()));
    assert_eq!(reg.name(a.current_room()), "General");
    let joined = frame(&mut a, &mut reg, &mut arx, "/join Lounge");
    assert_eq!(joined.replies, vec!["Changing to room: Lounge".to_string()]);
    assert_eq!(drain(&mut brx), vec!["alice has left the room.".to_string()]);
    frame(&mut a, &mut reg, &mut arx, "anyone here?");
    assert!(drain(&mut brx).is_empty());
    assert_eq!(
        drain(&mut arx),
        vec!["alice has joined the room.".to_string(), "alice: anyone here?".to_string()]
    );
}

#[test]
fn get_or_create_keeps_the_existing_channel() {
    let mut reg = RoomRegistry::new();
    let i = reg.get_or_create("Lounge", ROOM_CAPACITY);
    let mut rx = reg.sender(i).subscribe();
    let j = reg.get_or_create("Lounge", ROOM_CAPACITY);
    reg.get_or_create("Other", ROOM_CAPACITY);
    assert_eq!(i, j);
    assert!(reg.publish(j, "still the same room".to_string()));
    assert_eq!(drain(&mut rx), vec!["still the same room".to_string()]);
}
