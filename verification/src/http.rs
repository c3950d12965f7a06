//! What the crate knows of HTTP: which statuses mean success, which
//! credentials can travel in a header, and the shape of a prepared request.

use crate::text::chars_of;
use vstd::prelude::*;

verus! {

/// Whether `status` lies in 200..=299.
pub open spec fn status_is_success(status: u16) -> bool {
    200 <= status < 300
}

/// Whether `status` lies in 200..=299.
pub fn is_success(status: u16) -> (r: bool)
    ensures
        r == status_is_success(status),
{
    200 <= status && status < 300
}

/// Whether `c` may stand in a header value: a tab, or anything from the
/// space upwards but the delete character.
pub open spec fn sendable_char(c: char) -> bool {
    c == '\t' || (c >= ' ' && c != '\x7f')
}

/// Whether every character of `key` may stand in a header value.
pub open spec fn sendable(key: Seq<char>) -> bool {
    forall|i: int| 0 <= i < key.len() ==> sendable_char(#[trigger] key[i])
}

/// Whether `key` can be sent as the value of a request header.
pub fn credential_is_sendable(key: &str) -> (r: bool)
    ensures
        r == sendable(key@),
{
    let chars = chars_of(key);
    let mut i: usize = 0;
    while i < chars.len()
        invariant
            i <= chars.len(),
            chars@ == key@,
            forall|j: int| 0 <= j < i ==> sendable_char(#[trigger] key@[j]),
        decreases chars.len() - i,
    {
        let c = chars[i];
        if !(c == '\t' || (c >= ' ' && c != '\x7f')) {
            return false;
        }
        i += 1;
    }
    true
}

/// A request that is ready to be sent: where to, under which credential,
/// and with which JSON body.
#[derive(Debug, Clone, PartialEq, Eq)]
pub struct PreparedRequest {
    pub url: String,
    /// The name of the header that carries the credential.
    pub key_header: String,
    pub api_key: String,
    pub body: String,
}

/// What came back from a download: a response with its status, or nothing
/// because the service could not be reached.
#[derive(Debug, Clone, PartialEq, Eq)]
pub enum Download<T> {
    Received { status: u16, body: T },
    Unreachable,
}

} // verus!
