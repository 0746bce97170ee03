//! What the user is told when something fails.
//!
//! The raw text of a bus error is never shown. A message is first matched
//! against the phrases that betray its cause, in a fixed order; a message
//! that matches none is cut down to what follows its last colon, and
//! replaced altogether if even that is unfit to show.

use vstd::prelude::*;
use vstd::string::*;
use vstd::utf8::encode_utf8;
use crate::text::{
    chars_of, contains, contains_seq, find_char_from, index_of_from, lowercase, occurs_at, rfind,
    to_lowercase,
};

verus! {

/// Shown for anything that points at the secret of a network.
pub const WRONG_PASSWORD: &'static str = "Wrong password. Please try again.";

/// Shown when the network could not be found.
pub const NOT_FOUND: &'static str = "Network not found. It may be out of range.";

/// Shown when an operation did not finish in time.
pub const TIMED_OUT: &'static str = "Connection timed out. Please try again.";

/// Shown when nothing better can be said.
pub const FAILED: &'static str = "Operation failed. Please try again.";

/// Shown when the service rejected a request.
pub const AUTH_FAILED: &'static str = "Authentication failed. Check your password.";

/// Shown when a device is not connected or not paired.
pub const NOT_CONNECTED: &'static str = "Device is not connected.";

/// Shown when a connection exists already.
pub const ALREADY_CONNECTED: &'static str = "Already connected.";

/// Shown when a device is busy.
pub const BUSY: &'static str = "Device is busy. Please wait and try again.";

/// The longest tail of a message, in bytes, that is shown as it is.
pub const TAIL_LIMIT: usize = 60;

/// The longest message without a colon, in bytes, that is shown as it is.
pub const MESSAGE_LIMIT: usize = 80;

/// Whether the character `c` occurs in `s`.
pub open spec fn has_char(s: Seq<char>, c: char) -> bool {
    index_of_from(s, c, 0) < s.len()
}

/// The last position at which `pat` occurs in `s`, if it occurs at all.
pub open spec fn last_occurrence(s: Seq<char>, pat: Seq<char>) -> Option<int> {
    if contains_seq(s, pat) {
        Some(
            choose|at: int|
                occurs_at(s, pat, at) && forall|k: int| at < k ==> !occurs_at(s, pat, k),
        )
    } else {
        None
    }
}

/// What is shown for a message that matches no known phrase: what follows
/// its last colon and blank, unless that is longer than the limit or holds
/// a brace or a parenthesis; a message without colon and blank as it is,
/// unless it is longer than the limit.
pub open spec fn fallback(message: Seq<char>) -> Seq<char> {
    match last_occurrence(message, ": "@) {
        Some(at) => {
            let tail = message.subrange(at + 2, message.len() as int);
            if encode_utf8(tail).len() > TAIL_LIMIT || has_char(tail, '{') || has_char(tail, '(') {
                FAILED@
            } else {
                tail
            }
        },
        None => if encode_utf8(message).len() > MESSAGE_LIMIT {
            FAILED@
        } else {
            message
        },
    }
}

/// Whether a message in lower case mentions the secret of a network or its
/// authentication.
pub open spec fn mentions_secret(m: Seq<char>) -> bool {
    contains_seq(m, "secret"@) || contains_seq(m, "password"@) || contains_seq(m, "psk"@)
        || contains_seq(m, "auth"@) || contains_seq(m, "802-11-wireless-security"@)
}

/// What is shown for a message, given the message in lower case as `m`.
/// The phrases are looked for in `m`, and the first rule that matches
/// decides.
pub open spec fn sanitized_with(message: Seq<char>, m: Seq<char>) -> Seq<char> {
    if mentions_secret(m) {
        WRONG_PASSWORD@
    } else if contains_seq(m, "no suitable"@) || contains_seq(m, "no network"@) {
        NOT_FOUND@
    } else if contains_seq(m, "timeout"@) || contains_seq(m, "timed out"@) {
        TIMED_OUT@
    } else if (contains_seq(m, "type"@) && contains_seq(m, "does not match"@)) || contains_seq(
        m,
        "a{sa{sv}}"@,
    ) {
        FAILED@
    } else if contains_seq(m, "rejected"@) {
        AUTH_FAILED@
    } else if contains_seq(m, "not connected"@) || contains_seq(m, "not paired"@) {
        NOT_CONNECTED@
    } else if contains_seq(m, "already"@) && contains_seq(m, "connect"@) {
        ALREADY_CONNECTED@
    } else if contains_seq(m, "busy"@) || contains_seq(m, "in progress"@) {
        BUSY@
    } else {
        fallback(message)
    }
}

/// What is shown for a message: what its lower-case form decides.
pub open spec fn sanitized(message: Seq<char>) -> Seq<char> {
    sanitized_with(message, lowercase(message))
}

/// A message that mentions a secret, a pre-shared key or authentication is
/// shown as a wrong password, whatever else it says. Of the other messages,
/// one about a network that is not there is shown as not found, and of the
/// rest one about a timeout as timed out.
pub proof fn lemma_causes_by_rank(message: Seq<char>, m: Seq<char>)
    ensures
        mentions_secret(m) ==> sanitized_with(message, m) == WRONG_PASSWORD@,
        !mentions_secret(m) && (contains_seq(m, "no suitable"@) || contains_seq(
            m,
            "no network"@,
        )) ==> sanitized_with(message, m) == NOT_FOUND@,
        !mentions_secret(m) && !contains_seq(m, "no suitable"@) && !contains_seq(
            m,
            "no network"@,
        ) && (contains_seq(m, "timeout"@) || contains_seq(m, "timed out"@)) ==> sanitized_with(
            message,
            m,
        ) == TIMED_OUT@,
{
}

/// Whether `m` holds the phrase `phrase`.
fn holds(m: &Vec<char>, phrase: &str) -> (r: bool)
    ensures
        r == contains_seq(m@, phrase@),
{
    contains(m, &chars_of(phrase))
}

/// Cuts a message that matches no known phrase down to what can be shown.
pub fn fallback_message(message: &str) -> (r: String)
    ensures
        r@ == fallback(message@),
{
    let t = chars_of(message);
    match rfind(&t, &chars_of(": ")) {
        Some(at) => {
            proof {
                reveal_strlit(": ");
                let pat = ": "@;
                assert(pat.len() == 2);
                assert(occurs_at(t@, pat, at as int));
                assert(at + 2 <= t.len());
                let chosen = choose|c: int|
                    occurs_at(message@, pat, c) && forall|k: int|
                        c < k ==> !occurs_at(message@, pat, k);
                assert(chosen == at);
            }
            let tail = message.substring_char(at + 2, t.len());
            let tail_chars = chars_of(tail);
            if tail.as_bytes().len() > TAIL_LIMIT || find_char_from(&tail_chars, '{', 0) < tail_chars.len()
                || find_char_from(&tail_chars, '(', 0) < tail_chars.len() {
                String::from_str(FAILED)
            } else {
                String::from_str(tail)
            }
        },
        None => {
            if message.as_bytes().len() > MESSAGE_LIMIT {
                String::from_str(FAILED)
            } else {
                String::from_str(message)
            }
        },
    }
}

/// Turns the text of an error into a message fit to show.
pub fn sanitize_error_message(message: &str) -> (r: String)
    ensures
        r@ == sanitized(message@),
{
    let lower = to_lowercase(message);
    sanitize_lowered(message, lower.as_str())
}

/// Decides what to show for a message, given the message in lower case.
pub fn sanitize_lowered(message: &str, lower: &str) -> (r: String)
    ensures
        r@ == sanitized_with(message@, lower@),
{
    let m = chars_of(lower);
    if holds(&m, "secret") || holds(&m, "password") || holds(&m, "psk") || holds(&m, "auth")
        || holds(&m, "802-11-wireless-security") {
        String::from_str(WRONG_PASSWORD)
    } else if holds(&m, "no suitable") || holds(&m, "no network") {
        String::from_str(NOT_FOUND)
    } else if holds(&m, "timeout") || holds(&m, "timed out") {
        String::from_str(TIMED_OUT)
    } else if (holds(&m, "type") && holds(&m, "does not match")) || holds(&m, "a{sa{sv}}") {
        String::from_str(FAILED)
    } else if holds(&m, "rejected") {
        String::from_str(AUTH_FAILED)
    } else if holds(&m, "not connected") || holds(&m, "not paired") {
        String::from_str(NOT_CONNECTED)
    } else if holds(&m, "already") && holds(&m, "connect") {
        String::from_str(ALREADY_CONNECTED)
    } else if holds(&m, "busy") || holds(&m, "in progress") {
        String::from_str(BUSY)
    } else {
        fallback_message(message)
    }
}

} // verus!
