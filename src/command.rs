use vstd::prelude::*;
use vstd::string::*;

verus! {

/// The prefix of a frame that asks to create a room.
pub open spec fn create_prefix() -> Seq<char> {
    seq!['/', 'c', 'r', 'e', 'a', 't', 'e', ' ']
}

/// The prefix of a frame that asks to switch rooms.
pub open spec fn join_prefix() -> Seq<char> {
    seq!['/', 'j', 'o', 'i', 'n', ' ']
}

pub open spec fn has_prefix(s: Seq<char>, p: Seq<char>) -> bool {
    p.len() <= s.len() && s.subrange(0, p.len() as int) == p
}

/// What an inbound frame asks for, as a mathematical value.
pub ghost enum CommandView {
    Create(Seq<char>),
    Join(Seq<char>),
    Chat(Seq<char>),
}

/// The command grammar: the first matching prefix wins, and everything else is chat text.
pub open spec fn parse_spec(s: Seq<char>) -> CommandView {
    if has_prefix(s, create_prefix()) {
        CommandView::Create(s.subrange(create_prefix().len() as int, s.len() as int))
    } else if has_prefix(s, join_prefix()) {
        CommandView::Join(s.subrange(join_prefix().len() as int, s.len() as int))
    } else {
        CommandView::Chat(s)
    }
}

/// An inbound text frame, classified.
pub enum Command {
    /// `/create <name>`: make sure a room exists, without entering it.
    Create(String),
    /// `/join <name>`: switch to a room.
    Join(String),
    /// Anything else: a chat line for the current room.
    Chat(String),
}

impl View for Command {
    type V = CommandView;

    open spec fn view(&self) -> CommandView {
        match self {
            Command::Create(n) => CommandView::Create(n@),
            Command::Join(n) => CommandView::Join(n@),
            Command::Chat(t) => CommandView::Chat(t@),
        }
    }
}

/// Whether `s` begins with the characters of `p`.
fn starts_with_chars(s: &str, s_len: usize, p: &str, p_len: usize) -> (r: bool)
    requires
        s_len == s@.len(),
        p_len == p@.len(),
    ensures
        r == has_prefix(s@, p@),
{
    if p_len > s_len {
        return false;
    }
    let mut i: usize = 0;
    while i < p_len
        invariant
            p_len <= s_len,
            s_len == s@.len(),
            p_len == p@.len(),
            i <= p_len,
            forall|k: int| 0 <= k < i ==> s@[k] == p@[k],
        decreases p_len - i,
    {
        if s.get_char(i) != p.get_char(i) {
            assert(s@.subrange(0, p@.len() as int)[i as int] != p@[i as int]);
            return false;
        }
        i = i + 1;
    }
    assert(s@.subrange(0, p@.len() as int) =~= p@);
    true
}

/// Classifies an inbound frame: `/create <name>`, then `/join <name>`, else chat text.
pub fn parse_command(text: &str) -> (r: Command)
    ensures
        r@ == parse_spec(text@),
{
    let create = "/create ";
    let join = "/join ";
    proof {
        reveal_strlit("/create ");
        reveal_strlit("/join ");
        assert(create@ =~= create_prefix());
        assert(join@ =~= join_prefix());
    }
    let n = text.unicode_len();
    if starts_with_chars(text, n, create, 8) {
        Command::Create(String::from_str(text.substring_char(8, n)))
    } else if starts_with_chars(text, n, join, 6) {
        Command::Join(String::from_str(text.substring_char(6, n)))
    } else {
        Command::Chat(String::from_str(text))
    }
}

} // verus!
