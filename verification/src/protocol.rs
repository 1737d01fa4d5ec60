//! The pure parts of the exchange with the exercise server: the request
//! paths, the url-encoded request bodies, and the plain data records that
//! the server's JSON API carries. Sending and receiving, and the JSON
//! (de)serialization of the records, stay with the binary built on this
//! crate.

use base64::Engine;
use vstd::prelude::*;
use vstd::string::StringExecFns;

verus! {

/// An error message from the server's JSON API.
pub struct JsonError {
    pub message: String,
}

/// One downloadable exercise: the text the editor starts from, the text it
/// must end with, the task version, and an optional file extension for the
/// scratch file.
pub struct Task {
    pub input: String,
    pub output: String,
    pub version: String,
    pub file_extension: Option<String>,
}

/// The user record stored on this machine after activation.
pub struct User {
    pub id: u32,
    pub faculty_number: String,
    pub token: String,
}

/// A personal vimrc fetched from the server.
pub struct Vimrc {
    pub body: Option<String>,
}

/// The standard base64 encoding, with padding, of a byte sequence; a
/// function of the bytes alone.
pub uninterp spec fn base64_of(bytes: Seq<u8>) -> Seq<char>;

/// Relies on base64's `STANDARD` engine (`Engine::encode`): the standard
/// alphabet with padding, a function of the input bytes alone. The length
/// bound keeps the engine's output-size computation from overflowing, on
/// which it would panic.
#[verifier::external_body]
fn base64_encode(bytes: &Vec<u8>) -> (r: String)
    requires
        bytes@.len() / 3 * 4 + 4 <= usize::MAX,
    ensures
        r@ == base64_of(bytes@),
{
    base64::engine::general_purpose::STANDARD.encode(bytes)
}

/// The `application/x-www-form-urlencoded` serialization of the key-value
/// pairs, in their order; a function of the pairs alone.
pub uninterp spec fn form_encoded_of(pairs: Seq<(Seq<char>, Seq<char>)>) -> Seq<char>;

/// Relies on serde_urlencoded::to_string: on a sequence of string pairs it
/// always succeeds (its serializer accepts a top-level sequence, pairs of
/// length two, and string keys and values), and the output is a function of
/// the pairs alone.
#[verifier::external_body]
fn form_encode(pairs: &Vec<(String, String)>) -> (r: Option<String>)
    ensures
        r is Some,
        r matches Some(body) ==> body@ == form_encoded_of(pairs.deep_view()),
{
    serde_urlencoded::to_string(pairs).ok()
}

/// The request path for downloading one task.
pub fn task_path(task_id: &str) -> (r: String)
    ensures
        r@ == "/api/task/"@ + task_id@ + ".json"@,
{
    let mut path = String::from_str("/api/task/");
    path.append(task_id);
    path.append(".json");
    path
}

/// The request path for downloading a user's personal vimrc.
pub fn vimrc_path(user_token: &str) -> (r: String)
    ensures
        r@ == "/api/vimrc/"@ + user_token@ + ".json"@,
{
    let mut path = String::from_str("/api/vimrc/");
    path.append(user_token);
    path.append(".json");
    path
}

/// The pairs of a token-activation request, in the order they are sent.
pub open spec fn setup_pairs(user_token: Seq<char>, meta: Seq<char>) -> Seq<(Seq<char>, Seq<char>)> {
    seq![("token"@, user_token), ("meta"@, meta)]
}

/// The form body of a token-activation request: the token to activate and
/// the client's metadata record, url-encoded.
pub fn setup_body(user_token: &str, meta: &str) -> (r: String)
    ensures
        r@ == form_encoded_of(setup_pairs(user_token@, meta@)),
{
    let mut pairs: Vec<(String, String)> = Vec::new();
    pairs.push((String::from_str("token"), String::from_str(user_token)));
    pairs.push((String::from_str("meta"), String::from_str(meta)));
    proof {
        assert(pairs.deep_view() =~= setup_pairs(user_token@, meta@));
    }
    form_encode(&pairs).unwrap()
}

/// The pairs of a solution upload, in the order they are sent: the keylog
/// goes up base64-encoded under `entry`.
pub open spec fn upload_pairs(
    task_id: Seq<char>,
    log: Seq<u8>,
    user_token: Seq<char>,
    meta: Seq<char>,
) -> Seq<(Seq<char>, Seq<char>)> {
    seq![
        ("entry"@, base64_of(log)),
        ("challenge_id"@, task_id),
        ("user_token"@, user_token),
        ("meta"@, meta),
    ]
}

/// The form body of a solution upload: the base64 of the raw keylog bytes
/// and the identifying fields, url-encoded.
pub fn upload_body(task_id: &str, log: &Vec<u8>, user_token: &str, meta: &str) -> (r: String)
    requires
        log@.len() / 3 * 4 + 4 <= usize::MAX,
    ensures
        r@ == form_encoded_of(upload_pairs(task_id@, log@, user_token@, meta@)),
{
    let entry = base64_encode(log);
    let mut pairs: Vec<(String, String)> = Vec::new();
    pairs.push((String::from_str("entry"), entry));
    pairs.push((String::from_str("challenge_id"), String::from_str(task_id)));
    pairs.push((String::from_str("user_token"), String::from_str(user_token)));
    pairs.push((String::from_str("meta"), String::from_str(meta)));
    proof {
        assert(pairs.deep_view() =~= upload_pairs(task_id@, log@, user_token@, meta@));
    }
    form_encode(&pairs).unwrap()
}

/// The name of the scratch file a task is edited in: `input` plus the
/// task's file extension, or `input.txt` when the task names none.
pub fn input_file_name(extension: &Option<String>) -> (r: String)
    ensures
        match extension {
            Some(e) => r@ == "input."@ + e@,
            None => r@ == "input."@ + "txt"@,
        },
{
    let mut name = String::from_str("input.");
    match extension {
        Some(e) => name.append(e.as_str()),
        None => name.append("txt"),
    }
    name
}

} // verus!
