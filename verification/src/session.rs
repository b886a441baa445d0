//! Session ids: random bytes folded into cookie-safe ASCII.
use vstd::prelude::*;
use crate::shared::SessionId;

verus! {

/// Whether `c` may stand in a cookie value unquoted (RFC 6265
/// `cookie-octet`, ASCII).
pub open spec fn is_cookie_octet(c: char) -> bool {
    ||| c == '!'
    ||| '#' <= c <= '+'
    ||| '-' <= c <= ':'
    ||| '<' <= c <= '['
    ||| ']' <= c <= '~'
}

/// The printable, non-space ASCII character that a random byte is folded
/// into: `!` to `~` in turn.
pub open spec fn folded(byte: u8) -> int {
    33 + byte % 94
}

/// The characters among `!` to `~` that a cookie value cannot hold
/// unquoted: `"`, `,`, `;` and backslash.
pub open spec fn forbidden_in_cookie(c: int) -> bool {
    c == 0x22 || c == 0x2c || c == 0x3b || c == 0x5c
}

/// The character that a random byte stands for in a session id: the folded
/// character, except that each of the four characters a cookie cannot hold
/// is replaced by the character after it (`#`, `-`, `<`, `]`).
pub open spec fn ascii_of(byte: u8) -> int {
    if forbidden_in_cookie(folded(byte)) {
        folded(byte) + 1
    } else {
        folded(byte)
    }
}

/// Each byte gives a cookie-octet.
pub proof fn lemma_ascii_of(byte: u8)
    ensures
        0x21 <= ascii_of(byte) <= 0x7e,
        is_cookie_octet(((ascii_of(byte)) as u8) as char),
{
}

/// Casts and transforms a byte to make it valid ASCII for cookies: the byte
/// is folded into `!` to `~`, and the four of those that a cookie value
/// cannot hold (`"`, `,`, `;`, backslash) are moved to the next character,
/// so the result is an RFC 6265 cookie-octet and a session id never needs
/// quoting.
pub fn random_to_ascii(byte: u8) -> (c: u8)
    ensures
        c == ascii_of(byte),
        !forbidden_in_cookie(folded(byte)) ==> c == folded(byte),
        is_cookie_octet(c as char),
{
    let c = 33 + byte % (127 - 33);
    if c == 0x22 || c == 0x2c || c == 0x3b || c == 0x5c {
        c + 1
    } else {
        c
    }
}

/// Number of random bytes, and so of characters, in a session id.
pub const SESSION_ID_LEN: usize = 64;

/// The text of the session id made from `bytes`: each byte folded into a
/// cookie-octet.
pub open spec fn session_text(bytes: Seq<u8>) -> Seq<char> {
    bytes.map_values(|b: u8| (ascii_of(b) as u8) as char)
}

/// Every character of `s` may stand in a cookie value unquoted.
pub open spec fn cookie_text(s: Seq<char>) -> bool {
    forall|i: int| 0 <= i < s.len() ==> is_cookie_octet(#[trigger] s[i])
}

/// Fills `buf` with random bytes from the operating system.
///
/// Trusted: `getrandom::fill`; returns whether it succeeded. The bytes are
/// random, so no clause speaks of them; the length of the buffer stays.
#[verifier::external_body]
pub(crate) fn fill_random(buf: &mut Vec<u8>) -> (ok: bool)
    ensures
        final(buf)@.len() == old(buf)@.len(),
{
    getrandom::fill(buf.as_mut_slice()).is_ok()
}

/// The session id made from the given random bytes.
pub fn session_id_from_bytes(bytes: &[u8]) -> (id: SessionId)
    ensures
        id.0@ == session_text(bytes@),
        id.0@.len() == bytes@.len(),
        cookie_text(id.0@),
{
    let mut s = String::new();
    let mut i: usize = 0;
    while i < bytes.len()
        invariant
            i <= bytes@.len(),
            s@ == session_text(bytes@.take(i as int)),
        decreases bytes.len() - i,
    {
        let c = random_to_ascii(bytes[i]);
        s.push(c as char);
        assert(session_text(bytes@.take(i + 1)) =~= session_text(bytes@.take(i as int)).push((ascii_of(bytes@[i as int]) as u8) as char));
        i += 1;
    }
    assert(bytes@.take(bytes@.len() as int) =~= bytes@);
    proof {
        assert forall|j: int| 0 <= j < s@.len() implies is_cookie_octet(#[trigger] s@[j]) by {
            lemma_ascii_of(bytes@[j]);
        }
    }
    SessionId(s)
}

/// `s` is the text of a session id made from `SESSION_ID_LEN` bytes.
pub open spec fn is_session_text(s: Seq<char>) -> bool {
    exists|bytes: Seq<u8>| bytes.len() == SESSION_ID_LEN && s == #[trigger] session_text(bytes)
}

/// The text of a session id made from `SESSION_ID_LEN` bytes has that many
/// characters, all cookie-octets.
pub proof fn lemma_session_text(s: Seq<char>)
    requires
        is_session_text(s),
    ensures
        s.len() == SESSION_ID_LEN,
        cookie_text(s),
{
    let bytes = choose|bytes: Seq<u8>| bytes.len() == SESSION_ID_LEN && s == #[trigger] session_text(bytes);
    assert forall|j: int| 0 <= j < s.len() implies is_cookie_octet(#[trigger] s[j]) by {
        lemma_ascii_of(bytes[j]);
    }
}

/// Draws `SESSION_ID_LEN` random bytes; `None` when the operating system
/// gives none.
pub fn random_session_bytes() -> (bytes: Option<Vec<u8>>)
    ensures
        bytes matches Some(b) ==> b@.len() == SESSION_ID_LEN,
{
    let mut bytes: Vec<u8> = Vec::new();
    let mut i: usize = 0;
    while i < SESSION_ID_LEN
        invariant
            i <= SESSION_ID_LEN,
            bytes@.len() == i,
        decreases SESSION_ID_LEN - i,
    {
        bytes.push(0);
        i += 1;
    }
    if fill_random(&mut bytes) {
        Some(bytes)
    } else {
        None
    }
}

/// Draws a fresh session id: `SESSION_ID_LEN` random bytes, each folded
/// into a cookie-octet. `None` when the operating system gives
/// no random bytes.
pub fn new_session_id() -> (id: Option<SessionId>)
    ensures
        id matches Some(id) ==> is_session_text(id.0@),
        id matches Some(id) ==> id.0@.len() == SESSION_ID_LEN && cookie_text(id.0@),
{
    match random_session_bytes() {
        Some(bytes) => {
            let id = session_id_from_bytes(bytes.as_slice());
            assert(id.0@ == session_text(bytes@));
            Some(id)
        },
        None => None,
    }
}

} // verus!
