use vstd::prelude::*;
use vstd::string::*;

verus! {

#[verifier::external_type_specification]
#[verifier::external_body]
pub struct ExJsonError(serde_json::Error);

/// The JSON text of an array of strings, as serde_json writes it.
pub uninterp spec fn json_of_names(names: Seq<Seq<char>>) -> Seq<char>;

/// Relies on serde_json::to_string: the JSON array of the given strings, which depends on
/// the strings alone. It fails only where a `Serialize` impl fails or a map has keys that
/// are not strings, neither of which a list of strings has.
#[verifier::external_body]
fn names_to_json(names: &Vec<String>) -> (r: Result<String, serde_json::Error>)
    ensures
        r is Ok,
        r matches Ok(s) ==> s@ == json_of_names(names.deep_view()),
{
    serde_json::to_string(names)
}

/// The frame that tells a client which rooms exist: `rooms:` then a JSON array.
pub open spec fn rooms_frame_spec(json: Seq<char>) -> Seq<char> {
    "rooms:"@ + json
}

/// Builds the room-list frame around an already encoded JSON array.
pub fn rooms_frame(json: &str) -> (r: String)
    ensures
        r@ == rooms_frame_spec(json@),
{
    let mut s = String::from_str("rooms:");
    s.append(json);
    s
}

/// Failure to encode the room list.
pub enum ListingError {
    Encoding,
}

/// The room-list frame for `names`. A list of strings always encodes, so this succeeds.
pub fn room_list_frame(names: &Vec<String>) -> (r: Result<String, ListingError>)
    ensures
        r is Ok,
        r matches Ok(s) ==> s@ == rooms_frame_spec(json_of_names(names.deep_view())),
{
    match names_to_json(names) {
        Ok(json) => Ok(rooms_frame(json.as_str())),
        Err(_) => Err(ListingError::Encoding),
    }
}

} // verus!
