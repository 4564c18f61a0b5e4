//! What the library takes from other crates: the media type of a file
//! name, the byte buffers that carry file content, identifiers drawn at
//! random, the time, and what the machine says of itself.

use crate::registry::manager::Timestamp;
use vstd::prelude::*;

verus! {

/// The media type that `mime_guess` gives for a path, by the path's
/// extension; `application/octet-stream` where it knows none.
pub uninterp spec fn guessed_mime(path: Seq<char>) -> Seq<char>;

/// `mime_guess::from_path(..).first_or_octet_stream()`, as text. The guess
/// goes by the extension alone, through a table that is part of the crate;
/// the file is not opened.
#[verifier::external_body]
pub(crate) fn guess_mime(path: &str) -> (r: String)
    ensures
        r@ == guessed_mime(path@),
{
    mime_guess::from_path(path).first_or_octet_stream().to_string()
}

/// `bytes::Bytes`: a buffer of bytes that is cheap to hand on. What it holds
/// is spoken of through [`bytes_of`]; nothing else of it is known here.
#[verifier::external_type_specification]
#[verifier::external_body]
pub struct ExBytes(bytes::Bytes);

/// The bytes that a buffer holds.
pub uninterp spec fn bytes_of(b: bytes::Bytes) -> Seq<u8>;

/// `Bytes::len`: the number of bytes in the buffer.
#[verifier::external_body]
pub(crate) fn bytes_len(b: &bytes::Bytes) -> (r: usize)
    ensures
        r == bytes_of(*b).len(),
{
    b.len()
}

/// `Bytes::from(Vec<u8>)`: a buffer that holds the bytes of the vector.
#[verifier::external_body]
pub(crate) fn bytes_from_vec(v: Vec<u8>) -> (r: bytes::Bytes)
    ensures
        bytes_of(r) == v@,
{
    bytes::Bytes::from(v)
}

/// `directories::BaseDirs::home_dir`: the user's home directory, where the
/// environment names one. Nothing is promised of the answer.
#[verifier::external_body]
pub(crate) fn home_dir() -> (r: Option<String>) {
    match directories::BaseDirs::new() {
        Some(dirs) => Some(dirs.home_dir().to_string_lossy().into_owned()),
        None => None,
    }
}

/// `hostname::get`: the machine's name, where the system gives one. Nothing
/// is promised of the answer.
#[verifier::external_body]
pub(crate) fn host_name() -> (r: Option<String>) {
    match hostname::get() {
        Ok(name) => Some(name.to_string_lossy().into_owned()),
        Err(_) => None,
    }
}

/// Whether `c` is a digit of base 16, written in lower case.
pub open spec fn is_lower_hex(c: char) -> bool {
    (0x30 <= c as u32 && c as u32 <= 0x39) || (0x61 <= c as u32 && c as u32 <= 0x66)
}

/// Whether `s` has the form in which a random identifier is written: 36
/// characters, of which the 9th, 14th, 19th and 24th are hyphens and the
/// others digits of base 16 in lower case, the one behind the second hyphen
/// being the 4 that marks the identifier as random.
pub open spec fn is_random_id_text(s: Seq<char>) -> bool {
    &&& s.len() == 36
    &&& forall|i: int|
        0 <= i < 36 ==> if i == 8 || i == 13 || i == 18 || i == 23 {
            #[trigger] s[i] == '-'
        } else {
            is_lower_hex(s[i])
        }
    &&& s[14] == '4'
}

/// `uuid::Uuid::new_v4`, as text: an identifier drawn at random, written as
/// `Uuid`'s `Display` writes it. Which identifier comes is not promised, and
/// two calls may give the same; its form is that of every such text.
#[verifier::external_body]
pub(crate) fn random_id() -> (r: String)
    ensures
        is_random_id_text(r@),
{
    uuid::Uuid::new_v4().to_string()
}

/// `directories::ProjectDirs::data_dir`: the directory in which the
/// application named by the three words keeps its data, where the
/// environment names one. Nothing is promised of the answer.
#[verifier::external_body]
pub(crate) fn project_data_dir(qualifier: &str, organization: &str, application: &str) -> (r:
    Option<String>) {
    match directories::ProjectDirs::from(qualifier, organization, application) {
        Some(dirs) => Some(dirs.data_dir().to_string_lossy().into_owned()),
        None => None,
    }
}

/// `chrono::Utc::now`: the time of the call, as whole seconds since the
/// epoch and the nanoseconds into the second. Nothing is promised of the
/// answer.
#[verifier::external_body]
pub(crate) fn now() -> (r: Timestamp) {
    let t = chrono::Utc::now();
    Timestamp { secs: t.timestamp(), nanos: t.timestamp_subsec_nanos() }
}

} // verus!
