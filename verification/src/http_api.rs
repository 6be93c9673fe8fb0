//! The rules of the administrative interface: the API key, the form of a new
//! id, and the history of a peer's ids.

use crate::ident::{is_valid_id, valid_id, MAX_ID_LEN, MIN_ID_LEN};
use crate::relay::texts;
use crate::text::{push_char, str_eq, to_uppercase, trim, trimmed, uppercase_of};
use vstd::prelude::*;
use vstd::string::*;

verus! {

/// The length of a generated API key in characters.
pub const API_KEY_LEN: usize = 64;

/// The number of characters that a generated API key is drawn from: the 26
/// capital letters, the 26 small letters and the 10 digits.
pub const CHARSET_LEN: usize = 62;

/// The list of ids that `serde_json::from_str` reads from a text, if it reads
/// one.
pub uninterp spec fn json_ids(text: Seq<char>) -> Option<Seq<Seq<char>>>;

/// The text that `serde_json::to_string` writes for a list of ids.
pub uninterp spec fn ids_json(ids: Seq<Seq<char>>) -> Seq<char>;

/// `serde_json::from_str` for a list of strings: the list that the JSON text
/// `text` holds, or nothing where it holds none. The result depends on the
/// text alone.
#[verifier::external_body]
fn ids_from_json(text: &str) -> (r: Option<Vec<String>>)
    ensures
        match r {
            Some(ids) => json_ids(text@) == Some(texts(ids@)),
            None => json_ids(text@) is None,
        },
{
    match serde_json::from_str::<Vec<String>>(text) {
        Ok(ids) => Some(ids),
        Err(_) => None,
    }
}

/// `serde_json::to_string` for a list of strings: the JSON text of the list,
/// which depends on the list alone. Should the crate report an error, the
/// text is empty.
#[verifier::external_body]
fn ids_to_json(ids: &Vec<String>) -> (r: String)
    ensures
        r@ == ids_json(texts(ids@)),
{
    match serde_json::to_string(ids) {
        Ok(text) => text,
        Err(_) => String::new(),
    }
}

/// `rand::thread_rng`, then `rand::Rng::gen_range` over `0..n`: a number
/// below `n`, drawn at random.
#[verifier::external_body]
fn random_below(n: usize) -> (r: usize)
    requires
        n > 0,
    ensures
        r < n,
{
    rand::Rng::gen_range(&mut rand::thread_rng(), 0..n)
}

/// Why a request was turned away.
#[derive(Clone, Copy, Debug, PartialEq, Eq, Structural)]
pub enum ApiError {
    /// No API key was presented, or not the right one.
    Unauthorized,
    /// The new id has fewer than 6 or more than 16 bytes.
    IdLength,
    /// The new id holds a character that is no letter, digit, dash or
    /// underscore.
    IdCharset,
}

/// The `n`-th character of those that a generated key is drawn from: `A` to
/// `Z` from code 65, `a` to `z` from code 97, `0` to `9` from code 48.
pub open spec fn charset_char(n: int) -> char {
    if n < 26 {
        ((65 + n) as u8) as char
    } else if n < 52 {
        ((97 + (n - 26)) as u8) as char
    } else {
        ((48 + (n - 52)) as u8) as char
    }
}

/// Whether every character of a key is one of those that a generated key is
/// drawn from.
pub open spec fn drawn_from_charset(key: Seq<char>) -> bool {
    forall|i: int|
        0 <= i < key.len() ==> exists|n: int| 0 <= n < CHARSET_LEN && #[trigger] key[i]
            == charset_char(n)
}

/// The key that a key file holds: its text without the white space around
/// it, where that is not empty.
pub open spec fn stored_key(file: Option<Seq<char>>) -> Option<Seq<char>> {
    match file {
        Some(text) => if trimmed(text).len() > 0 {
            Some(trimmed(text))
        } else {
            None
        },
        None => None,
    }
}

/// Tests the API key that a request presents against the server's.
pub fn verify_api_key(presented: Option<&str>, api_key: &str) -> (r: Result<(), ApiError>)
    ensures
        r is Ok <==> (presented matches Some(key) && key@ == api_key@),
        r is Err ==> r == Err::<(), ApiError>(ApiError::Unauthorized),
{
    match presented {
        Some(key) => if str_eq(key, api_key) {
            Ok(())
        } else {
            Err(ApiError::Unauthorized)
        },
        None => Err(ApiError::Unauthorized),
    }
}

/// An id as the interface takes it: without the white space around it, in
/// upper case.
pub fn clean_id(id: &str) -> (r: String)
    ensures
        r@ == uppercase_of(trimmed(id@)),
{
    to_uppercase(trim(id))
}

/// Tests the form of a new id: first its length, then its characters.
pub fn check_new_id(new_id: &str) -> (r: Result<(), ApiError>)
    ensures
        r is Ok <==> valid_id(new_id@),
        r == Err::<(), ApiError>(ApiError::IdLength) <==> !(MIN_ID_LEN <= vstd::utf8::encode_utf8(
            new_id@,
        ).len() <= MAX_ID_LEN),
        r is Err ==> r == Err::<(), ApiError>(ApiError::IdLength) || r == Err::<(), ApiError>(
            ApiError::IdCharset,
        ),
{
    let bytes: usize = new_id.as_bytes().len();
    if bytes < MIN_ID_LEN || bytes > MAX_ID_LEN {
        Err(ApiError::IdLength)
    } else if is_valid_id(new_id) {
        Ok(())
    } else {
        Err(ApiError::IdCharset)
    }
}

/// The ids that a peer has had so far, from what its history text reads as:
/// none where the text is empty or is no list of strings.
pub open spec fn history_so_far(previous_ids: Seq<char>) -> Seq<Seq<char>> {
    if previous_ids.len() == 0 {
        Seq::empty()
    } else {
        match json_ids(previous_ids) {
            Some(ids) => ids,
            None => Seq::empty(),
        }
    }
}

/// The history of a peer once `old_id` has joined it. `so_far` is what the
/// history read as: it counts as empty where it could not be read.
pub fn extend_history(so_far: Option<Vec<String>>, old_id: &str) -> (ids: Vec<String>)
    ensures
        texts(ids@) == (match so_far {
            Some(list) => texts(list@),
            None => Seq::<Seq<char>>::empty(),
        }).push(old_id@),
{
    let mut ids: Vec<String> = match so_far {
        Some(list) => list,
        None => Vec::new(),
    };
    let ghost before = ids@;
    ids.push(old_id.to_owned());
    assert(texts(ids@) =~= texts(before).push(old_id@));
    ids
}

/// The ids that a peer has had, once `old_id` has joined them, and their
/// JSON text. `previous_ids` is the JSON text of the ids so far; an empty
/// text, or one that is no list of strings, stands for none.
pub fn rename_history(previous_ids: &str, old_id: &str) -> (r: (Vec<String>, String))
    ensures
        texts(r.0@) == history_so_far(previous_ids@).push(old_id@),
        r.1@ == ids_json(texts(r.0@)),
{
    let so_far = if previous_ids.is_empty() {
        None
    } else {
        ids_from_json(previous_ids)
    };
    let ids = extend_history(so_far, old_id);
    let json = ids_to_json(&ids);
    (ids, json)
}

/// A new API key: 64 letters and digits drawn at random.
pub fn generate_api_key() -> (key: String)
    ensures
        key@.len() == API_KEY_LEN,
        drawn_from_charset(key@),
{
    let mut key = String::new();
    let mut i: usize = 0;
    while i < API_KEY_LEN
        invariant
            i <= API_KEY_LEN,
            key@.len() == i,
            drawn_from_charset(key@),
        decreases API_KEY_LEN - i,
    {
        let n: usize = random_below(CHARSET_LEN);
        let code: u8 = if n < 26 {
            65 + n as u8
        } else if n < 52 {
            97 + (n - 26) as u8
        } else {
            48 + (n - 52) as u8
        };
        let c: char = code as char;
        assert(c == charset_char(n as int));
        let ghost before = key@;
        push_char(&mut key, c);
        assert forall|j: int| 0 <= j < key@.len() implies exists|m: int|
            0 <= m < CHARSET_LEN && #[trigger] key@[j] == charset_char(m) by {
            if j < before.len() {
                assert(key@[j] == before[j]);
            }
        }
        i += 1;
    }
    key
}

/// The server's API key: the one that the key file holds, or a new one
/// where the file is missing or empty. The second part says whether the key
/// is new and is to be written to the file.
pub fn load_or_generate_api_key(file: Option<&str>) -> (r: (String, bool))
    ensures
        match stored_key(
            match file {
                Some(text) => Some(text@),
                None => None,
            },
        ) {
            Some(key) => r.0@ == key && !r.1,
            None => r.1 && r.0@.len() == API_KEY_LEN && drawn_from_charset(r.0@),
        },
{
    match file {
        Some(text) => {
            let key = trim(text);
            if !key.is_empty() {
                return (key.to_owned(), false);
            }
        },
        None => {},
    }
    (generate_api_key(), true)
}

} // verus!
