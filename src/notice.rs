use vstd::prelude::*;
use vstd::string::*;

verus! {

/// The chat line that members of a room see: `<username>: <text>`.
pub open spec fn chat_line_spec(username: Seq<char>, text: Seq<char>) -> Seq<char> {
    username + ": "@ + text
}

pub open spec fn left_notice_spec(username: Seq<char>) -> Seq<char> {
    username + " has left the room."@
}

pub open spec fn joined_notice_spec(username: Seq<char>) -> Seq<char> {
    username + " has joined the room."@
}

pub open spec fn welcome_spec(username: Seq<char>) -> Seq<char> {
    "Welcome to LFG, "@ + username + "! Create or join a room and send messages!"@
}

pub open spec fn room_welcome_spec(room: Seq<char>) -> Seq<char> {
    "Welcome to the room: "@ + room
}

pub open spec fn room_created_spec(room: Seq<char>) -> Seq<char> {
    "Room created: "@ + room
}

pub open spec fn changing_room_spec(room: Seq<char>) -> Seq<char> {
    "Changing to room: "@ + room
}

pub open spec fn already_in_room_spec(room: Seq<char>) -> Seq<char> {
    "You are already in the room: "@ + room
}

pub fn chat_line(username: &str, text: &str) -> (r: String)
    ensures
        r@ == chat_line_spec(username@, text@),
{
    let mut s = String::from_str(username);
    s.append(": ");
    s.append(text);
    s
}

pub fn left_notice(username: &str) -> (r: String)
    ensures
        r@ == left_notice_spec(username@),
{
    let mut s = String::from_str(username);
    s.append(" has left the room.");
    s
}

pub fn joined_notice(username: &str) -> (r: String)
    ensures
        r@ == joined_notice_spec(username@),
{
    let mut s = String::from_str(username);
    s.append(" has joined the room.");
    s
}

pub fn welcome(username: &str) -> (r: String)
    ensures
        r@ == welcome_spec(username@),
{
    let mut s = String::from_str("Welcome to LFG, ");
    s.append(username);
    s.append("! Create or join a room and send messages!");
    s
}

pub fn room_welcome(room: &str) -> (r: String)
    ensures
        r@ == room_welcome_spec(room@),
{
    let mut s = String::from_str("Welcome to the room: ");
    s.append(room);
    s
}

pub fn room_created(room: &str) -> (r: String)
    ensures
        r@ == room_created_spec(room@),
{
    let mut s = String::from_str("Room created: ");
    s.append(room);
    s
}

pub fn changing_room(room: &str) -> (r: String)
    ensures
        r@ == changing_room_spec(room@),
{
    let mut s = String::from_str("Changing to room: ");
    s.append(room);
    s
}

pub fn already_in_room(room: &str) -> (r: String)
    ensures
        r@ == already_in_room_spec(room@),
{
    let mut s = String::from_str("You are already in the room: ");
    s.append(room);
    s
}

} // verus!
