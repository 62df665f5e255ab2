use vstd::prelude::*;
use vstd::string::*;
use crate::command::{
    create_prefix, has_prefix, join_prefix, parse_command, parse_spec, Command, CommandView,
};
use crate::listing::{json_of_names, room_list_frame, rooms_frame_spec, ListingError};
use crate::notice::{
    already_in_room, already_in_room_spec, changing_room, changing_room_spec, chat_line,
    chat_line_spec, joined_notice, joined_notice_spec, left_notice, left_notice_spec,
    room_created, room_created_spec, room_welcome, room_welcome_spec, welcome, welcome_spec,
};
use crate::registry::{
    lemma_get_or_create_single_room, names_unique, room_index, with_room, RoomInfo, RoomRegistry, DEFAULT_ROOM_CAPACITY, ROOM_CAPACITY,
};

verus! {

/// The room every session starts in.
pub open spec fn general_room() -> Seq<char> {
    seq!['G', 'e', 'n', 'e', 'r', 'a', 'l']
}

/// A message to publish to a room's channel.
pub struct Publish {
    pub room: usize,
    pub text: String,
}

/// What one step of a session asks the connection handler to do: switch its receiver to a
/// room's channel if `subscribe` says so, publish each of `publishes` in order, then send each
/// of `replies` to its own client in order.
pub struct Outcome {
    pub replies: Vec<String>,
    pub publishes: Vec<Publish>,
    pub subscribe: Option<usize>,
}

pub ghost struct OutcomeView {
    pub replies: Seq<Seq<char>>,
    pub publishes: Seq<(nat, Seq<char>)>,
    pub subscribe: Option<nat>,
}

impl View for Outcome {
    type V = OutcomeView;

    open spec fn view(&self) -> OutcomeView {
        OutcomeView {
            replies: self.replies.deep_view(),
            publishes: self.publishes@.map_values(|p: Publish| (p.room as nat, p.text@)),
            subscribe: match self.subscribe {
                Some(i) => Some(i as nat),
                None => None,
            },
        }
    }
}

/// What reaches a session: a text frame from its client, or a message from its room.
pub enum Event {
    Frame(String),
    Broadcast(String),
}

pub ghost enum EventView {
    Frame(Seq<char>),
    Broadcast(Seq<char>),
}

impl View for Event {
    type V = EventView;

    open spec fn view(&self) -> EventView {
        match self {
            Event::Frame(t) => EventView::Frame(t@),
            Event::Broadcast(m) => EventView::Broadcast(m@),
        }
    }
}

/// A session's state once its user is named: the username and the index of its room.
pub ghost struct SessionView {
    pub username: Seq<char>,
    pub current: nat,
}

/// One connection's session, after the username handshake.
pub struct Session {
    username: String,
    current: usize,
}

impl View for Session {
    type V = SessionView;

    closed spec fn view(&self) -> SessionView {
        SessionView { username: self.username@, current: self.current as nat }
    }
}

pub open spec fn reply_only(text: Seq<char>) -> OutcomeView {
    OutcomeView { replies: seq![text], publishes: seq![], subscribe: None }
}

/// Entering the chat: the room list (already framed), the welcome texts, and a
/// subscription to the default room, which is made if it does not exist yet.
pub open spec fn enter_spec(username: Seq<char>, v: Seq<RoomInfo>, listing: Seq<char>) -> (
    SessionView,
    Seq<RoomInfo>,
    OutcomeView,
) {
    let g = room_index(v, general_room());
    (
        SessionView { username, current: g as nat },
        with_room(v, general_room(), DEFAULT_ROOM_CAPACITY as nat),
        OutcomeView {
            replies: seq![listing, welcome_spec(username), room_welcome_spec(general_room())],
            publishes: seq![],
            subscribe: Some(g as nat),
        },
    )
}

/// One transition of the session state machine.
pub open spec fn step_spec(s: SessionView, v: Seq<RoomInfo>, e: EventView) -> (
    SessionView,
    Seq<RoomInfo>,
    OutcomeView,
) {
    match e {
        EventView::Broadcast(m) => (s, v, reply_only(m)),
        EventView::Frame(t) => match parse_spec(t) {
            CommandView::Create(n) => (
                s,
                with_room(v, n, ROOM_CAPACITY as nat),
                reply_only(room_created_spec(n)),
            ),
            CommandView::Join(n) => if v[s.current as int].name == n {
                (s, v, reply_only(already_in_room_spec(n)))
            } else {
                let j = room_index(v, n);
                (
                    SessionView { current: j as nat, ..s },
                    with_room(v, n, ROOM_CAPACITY as nat),
                    OutcomeView {
                        replies: seq![changing_room_spec(n)],
                        publishes: seq![
                            (s.current, left_notice_spec(s.username)),
                            (j as nat, joined_notice_spec(s.username)),
                        ],
                        subscribe: Some(j as nat),
                    },
                )
            },
            CommandView::Chat(x) => (
                s,
                v,
                OutcomeView {
                    replies: seq![],
                    publishes: seq![(s.current, chat_line_spec(s.username, x))],
                    subscribe: None,
                },
            ),
        },
    }
}

/// A frame `/join <name>` is read as a request to join `name`.
pub proof fn lemma_parse_join(n: Seq<char>)
    ensures
        parse_spec(join_prefix() + n) == CommandView::Join(n),
{
    let t = join_prefix() + n;
    assert(!has_prefix(t, create_prefix())) by {
        if has_prefix(t, create_prefix()) {
            assert(t.subrange(0, 8)[1] == t[1]);
        }
    }
    assert(t.subrange(0, 6) =~= join_prefix());
    assert(t.subrange(6, t.len() as int) =~= n);
}

/// Asking twice in a row to join the same room: the second request is answered with the
/// already-in-room reply alone, and changes neither the session, nor the registry, nor the
/// session's subscription.
pub proof fn lemma_join_same_room_twice(s: SessionView, v: Seq<RoomInfo>, n: Seq<char>)
    requires
        names_unique(v),
        s.current < v.len(),
    ensures
        ({
            let e = EventView::Frame(join_prefix() + n);
            let (s1, v1, o1) = step_spec(s, v, e);
            step_spec(s1, v1, e) == (s1, v1, reply_only(already_in_room_spec(n)))
        }),
{
    lemma_parse_join(n);
    lemma_get_or_create_single_room(v, n, ROOM_CAPACITY as nat, ROOM_CAPACITY as nat);
}

/// A chat line reaches only the sender's current room: it is published there once, and no
/// other room gets anything.
pub proof fn lemma_chat_stays_in_room(s: SessionView, v: Seq<RoomInfo>, t: Seq<char>, other: nat)
    requires
        parse_spec(t) is Chat,
        other != s.current,
    ensures
        ({
            let o = step_spec(s, v, EventView::Frame(t)).2;
            &&& o.publishes == seq![(s.current, chat_line_spec(s.username, parse_spec(t)->Chat_0))]
            &&& forall|k: int| 0 <= k < o.publishes.len() ==> (#[trigger] o.publishes[k]).0 != other
        }),
{
}

/// The session and registry after handling `es` in order, starting from `s` and `v`.
pub open spec fn run_spec(s: SessionView, v: Seq<RoomInfo>, es: Seq<EventView>) -> (
    SessionView,
    Seq<RoomInfo>,
)
    decreases es.len(),
{
    if es.len() == 0 {
        (s, v)
    } else {
        let (s1, v1, o1) = step_spec(s, v, es[0]);
        run_spec(s1, v1, es.drop_first())
    }
}

/// The event is a `/join` request.
pub open spec fn is_join(e: EventView) -> bool {
    e matches EventView::Frame(t) && parse_spec(t) is Join
}

/// Events that are not joins leave the session where it is, and the registry only gains
/// rooms: those it had keep their places and names stay unique.
pub proof fn lemma_run_without_join(s: SessionView, v: Seq<RoomInfo>, es: Seq<EventView>)
    requires
        names_unique(v),
        s.current < v.len(),
        forall|k: int| 0 <= k < es.len() ==> !is_join(#[trigger] es[k]),
    ensures
        run_spec(s, v, es).0 == s,
        names_unique(run_spec(s, v, es).1),
        v.len() <= run_spec(s, v, es).1.len(),
        forall|i: int| 0 <= i < v.len() ==> run_spec(s, v, es).1[i] == v[i],
    decreases es.len(),
{
    if es.len() > 0 {
        let (s1, v1, o1) = step_spec(s, v, es[0]);
        assert(!is_join(es[0]));
        if let EventView::Frame(t) = es[0] {
            if let CommandView::Create(n) = parse_spec(t) {
                lemma_get_or_create_single_room(v, n, ROOM_CAPACITY as nat, ROOM_CAPACITY as nat);
            }
        }
        let rest = es.drop_first();
        assert forall|k: int| 0 <= k < rest.len() implies !is_join(#[trigger] rest[k]) by {
            assert(rest[k] == es[k + 1]);
        }
        lemma_run_without_join(s1, v1, rest);
    }
}

/// The session and registry after the first `k` events of `es`.
pub open spec fn state_after(s: SessionView, v: Seq<RoomInfo>, es: Seq<EventView>, k: int) -> (
    SessionView,
    Seq<RoomInfo>,
) {
    run_spec(s, v, es.take(k))
}

/// What handling the event at `k` asks for, after the events before it.
pub open spec fn outcome_at(s: SessionView, v: Seq<RoomInfo>, es: Seq<EventView>, k: int) -> OutcomeView {
    step_spec(state_after(s, v, es, k).0, state_after(s, v, es, k).1, es[k]).2
}

/// A member who never asks to join stays in the default room for the whole session: after
/// any prefix of its events it is still in the room it entered, that room is still the
/// default room, and the next event keeps it there with the same subscription; a chat line
/// is published to that room alone, and a message of that room is passed on as it came.
pub proof fn lemma_session_without_join(
    username: Seq<char>,
    v: Seq<RoomInfo>,
    listing: Seq<char>,
    es: Seq<EventView>,
)
    requires
        names_unique(v),
        forall|k: int| 0 <= k < es.len() ==> !is_join(#[trigger] es[k]),
    ensures
        ({
            let (s0, v0, o0) = enter_spec(username, v, listing);
            &&& v0[s0.current as int].name == general_room()
            &&& o0.subscribe == Some(s0.current)
            &&& forall|k: int| 0 <= k <= es.len() ==> {
                &&& (#[trigger] state_after(s0, v0, es, k)).0 == s0
                &&& s0.current < state_after(s0, v0, es, k).1.len()
                &&& state_after(s0, v0, es, k).1[s0.current as int].name == general_room()
            }
            &&& forall|k: int| 0 <= k < es.len() ==> {
                &&& (#[trigger] outcome_at(s0, v0, es, k)).subscribe is None
                &&& forall|p: int| 0 <= p < outcome_at(s0, v0, es, k).publishes.len()
                    ==> (#[trigger] outcome_at(s0, v0, es, k).publishes[p]).0 == s0.current
                &&& (es[k] matches EventView::Broadcast(m) ==> outcome_at(s0, v0, es, k).replies == seq![m])
            }
        }),
{
    lemma_get_or_create_single_room(v, general_room(), DEFAULT_ROOM_CAPACITY as nat, 0);
    let (s0, v0, o0) = enter_spec(username, v, listing);
    assert forall|k: int| 0 <= k <= es.len() implies {
        &&& (#[trigger] state_after(s0, v0, es, k)).0 == s0
        &&& s0.current < state_after(s0, v0, es, k).1.len()
        &&& state_after(s0, v0, es, k).1[s0.current as int].name == general_room()
    } by {
        let pre = es.take(k);
        assert forall|j: int| 0 <= j < pre.len() implies !is_join(#[trigger] pre[j]) by {
            assert(pre[j] == es[j]);
        }
        lemma_run_without_join(s0, v0, pre);
    }
    assert forall|k: int| 0 <= k < es.len() implies {
        &&& (#[trigger] outcome_at(s0, v0, es, k)).subscribe is None
        &&& forall|p: int| 0 <= p < outcome_at(s0, v0, es, k).publishes.len()
            ==> (#[trigger] outcome_at(s0, v0, es, k).publishes[p]).0 == s0.current
        &&& (es[k] matches EventView::Broadcast(m) ==> outcome_at(s0, v0, es, k).replies == seq![m])
    } by {
        let pre = es.take(k);
        assert forall|j: int| 0 <= j < pre.len() implies !is_join(#[trigger] pre[j]) by {
            assert(pre[j] == es[j]);
        }
        lemma_run_without_join(s0, v0, pre);
        assert(!is_join(es[k]));
    }
}

/// Switching from one room to another: the old room is told the member left, the new room
/// is told the member joined, and the session now follows the new room's channel.
pub proof fn lemma_switch_rooms(s: SessionView, v: Seq<RoomInfo>, n: Seq<char>)
    requires
        names_unique(v),
        s.current < v.len(),
        v[s.current as int].name != n,
    ensures
        ({
            let (s1, v1, o1) = step_spec(s, v, EventView::Frame(join_prefix() + n));
            &&& s1.current < v1.len()
            &&& v1[s1.current as int].name == n
            &&& s1.current != s.current
            &&& o1.publishes == seq![
                (s.current, left_notice_spec(s.username)),
                (s1.current, joined_notice_spec(s.username)),
            ]
            &&& o1.subscribe == Some(s1.current)
            &&& o1.replies == seq![changing_room_spec(n)]
        }),
{
    lemma_parse_join(n);
    lemma_get_or_create_single_room(v, n, ROOM_CAPACITY as nat, ROOM_CAPACITY as nat);
    let w = with_room(v, n, ROOM_CAPACITY as nat);
    assert(w[s.current as int] == v[s.current as int]);
}

impl Session {
    /// The session's room exists in the registry it runs against.
    pub open spec fn inv(&self, reg: &RoomRegistry) -> bool {
        &&& reg.wf()
        &&& self@.current < reg@.len()
    }

    pub fn username(&self) -> (r: &String)
        ensures
            r@ == self@.username,
    {
        &self.username
    }

    pub fn current_room(&self) -> (r: usize)
        ensures
            r == self@.current,
    {
        self.current
    }

    /// Enters the default room with `listing` as the room-list frame to send first.
    pub fn enter(username: String, reg: &mut RoomRegistry, listing: String) -> (r: (Session, Outcome))
        requires
            old(reg).wf(),
        ensures
            r.0.inv(final(reg)),
            old(reg).keeps_channels(final(reg)),
            (r.0@, final(reg)@, r.1@) == enter_spec(username@, old(reg)@, listing@),
    {
        let general = "General";
        proof {
            reveal_strlit("General");
            assert(general@ =~= general_room());
        }
        let g = reg.get_or_create(general, DEFAULT_ROOM_CAPACITY);
        let welcome_text = welcome(username.as_str());
        let room_text = room_welcome(general);
        let replies = vec![listing, welcome_text, room_text];
        let out = Outcome { replies, publishes: Vec::new(), subscribe: Some(g) };
        let session = Session { username, current: g };
        assert(out@.replies =~= enter_spec(username@, old(reg)@, listing@).2.replies);
        assert(out@.publishes =~= Seq::<(nat, Seq<char>)>::empty());
        (session, out)
    }

    /// Starts a session for `username` once its first frame has named it: lists the rooms
    /// known at this moment, then enters the default room. A list of room names always
    /// encodes, so this always succeeds.
    pub fn start(username: String, reg: &mut RoomRegistry) -> (r: Result<(Session, Outcome), ListingError>)
        requires
            old(reg).wf(),
        ensures
            r is Ok,
            final(reg).wf(),
            old(reg).keeps_channels(final(reg)),
            r matches Ok(p) ==> p.0.inv(final(reg)) && (p.0@, final(reg)@, p.1@) == enter_spec(
                username@,
                old(reg)@,
                rooms_frame_spec(json_of_names(old(reg)@.map_values(|x: RoomInfo| x.name))),
            ),
    {
        let names = reg.list_names();
        match room_list_frame(&names) {
            Ok(listing) => Ok(Session::enter(username, reg, listing)),
            Err(e) => Err(e),
        }
    }

    /// Handles one event: a command or chat line from the client, or a message from the
    /// current room's channel.
    pub fn step(&mut self, reg: &mut RoomRegistry, event: Event) -> (r: Outcome)
        requires
            old(self).inv(old(reg)),
        ensures
            final(self).inv(final(reg)),
            old(reg).keeps_channels(final(reg)),
            (final(self)@, final(reg)@, r@) == step_spec(old(self)@, old(reg)@, event@),
    {
        match event {
            Event::Broadcast(m) => {
                let out = Outcome { replies: vec![m], publishes: Vec::new(), subscribe: None };
                assert(out@.replies =~= seq![m@]);
                assert(out@.publishes =~= Seq::<(nat, Seq<char>)>::empty());
                out
            },
            Event::Frame(text) => {
                let cmd = parse_command(text.as_str());
                match cmd {
                    Command::Create(name) => {
                        reg.get_or_create(name.as_str(), ROOM_CAPACITY);
                        let out = Outcome {
                            replies: vec![room_created(name.as_str())],
                            publishes: Vec::new(),
                            subscribe: None,
                        };
                        assert(out@.replies =~= seq![room_created_spec(name@)]);
                        assert(out@.publishes =~= Seq::<(nat, Seq<char>)>::empty());
                        out
                    },
                    Command::Join(name) => {
                        if *reg.name(self.current) == name {
                            let out = Outcome {
                                replies: vec![already_in_room(name.as_str())],
                                publishes: Vec::new(),
                                subscribe: None,
                            };
                            assert(out@.replies =~= seq![already_in_room_spec(name@)]);
                            assert(out@.publishes =~= Seq::<(nat, Seq<char>)>::empty());
                            out
                        } else {
                            let old_room = self.current;
                            let j = reg.get_or_create(name.as_str(), ROOM_CAPACITY);
                            self.current = j;
                            let left = Publish { room: old_room, text: left_notice(self.username.as_str()) };
                            let joined = Publish { room: j, text: joined_notice(self.username.as_str()) };
                            let out = Outcome {
                                replies: vec![changing_room(name.as_str())],
                                publishes: vec![left, joined],
                                subscribe: Some(j),
                            };
                            assert(out@.replies =~= seq![changing_room_spec(name@)]);
                            assert(out@.publishes =~= step_spec(old(self)@, old(reg)@, event@).2.publishes);
                            out
                        }
                    },
                    Command::Chat(t) => {
                        let line = chat_line(self.username.as_str(), t.as_str());
                        let out = Outcome {
                            replies: Vec::new(),
                            publishes: vec![Publish { room: self.current, text: line }],
                            subscribe: None,
                        };
                        assert(out@.replies =~= Seq::<Seq<char>>::empty());
                        assert(out@.publishes =~= seq![(self@.current, chat_line_spec(self@.username, t@))]);
                        out
                    },
                }
            },
        }
    }
}

} // verus!
