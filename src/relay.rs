//! The guest side of the print relay: the text that is forwarded to the
//! host's print callback for what the interpreter writes.
//!
//! The interpreter writes single bytes and NUL-terminated byte strings.
//! Whatever is valid UTF-8 is forwarded as decoded; anything else is
//! replaced by a fixed marker, so that the relay never fails.

use vstd::prelude::*;
use vstd::string::StringExecFns;
use vstd::utf8::{decode_utf8, valid_utf8};

verus! {

/// Relies on core::str::from_utf8: succeeds exactly when `bytes` is valid
/// UTF-8, and then holds the text those bytes encode.
#[verifier::external_body]
fn decode_text(bytes: &[u8]) -> (r: Option<String>)
    ensures
        match r {
            Some(s) => valid_utf8(bytes@) && s@ == decode_utf8(bytes@),
            None => !valid_utf8(bytes@),
        },
{
    core::str::from_utf8(bytes).ok().map(String::from)
}

/// Length of the C string at the start of `b`: the bytes before the first
/// NUL, or all of `b` when it holds none.
pub open spec fn c_str_len(b: Seq<u8>) -> nat
    decreases b.len(),
{
    if b.len() == 0 || b[0] == 0 {
        0
    } else {
        1 + c_str_len(b.drop_first())
    }
}

/// The text forwarded for `bytes`: its decoding when it is valid UTF-8,
/// `fallback` otherwise.
pub open spec fn relay_text(bytes: Seq<u8>, fallback: Seq<char>) -> Seq<char> {
    if valid_utf8(bytes) {
        decode_utf8(bytes)
    } else {
        fallback
    }
}

proof fn lemma_c_str_len(b: Seq<u8>, n: nat)
    requires
        n <= b.len(),
        forall|j: int| 0 <= j < n ==> b[j] != 0,
        n < b.len() ==> b[n as int] == 0,
    ensures
        c_str_len(b) == n,
    decreases n,
{
    if n > 0 {
        assert(b[0] != 0);
        let rest = b.drop_first();
        assert forall|j: int| 0 <= j < n - 1 implies rest[j] != 0 by {
            assert(rest[j] == b[j + 1]);
        }
        if n - 1 < rest.len() {
            assert(rest[n - 1] == b[n as int]);
        }
        lemma_c_str_len(rest, (n - 1) as nat);
    }
}

/// The text forwarded for one byte written by the interpreter: the
/// character it encodes on its own, or `"?"`.
pub fn hl_print_char(c: u8) -> (r: String)
    ensures
        r@ == relay_text(seq![c], "?"@),
{
    let buf: Vec<u8> = vec![c];
    assert(buf@ == seq![c]);
    match decode_text(buf.as_slice()) {
        Some(s) => s,
        None => {
            proof {
                reveal_strlit("?");
            }
            String::from_str("?")
        },
    }
}

/// The text forwarded for a C string written by the interpreter: the bytes
/// before the first NUL, decoded, or `"Invalid UTF-8 string"` when they are
/// not valid UTF-8.
pub fn hl_print_str(s: &[u8]) -> (r: String)
    ensures
        r@ == relay_text(s@.take(c_str_len(s@) as int), "Invalid UTF-8 string"@),
{
    let mut text: Vec<u8> = Vec::new();
    let mut i: usize = 0;
    while i < s.len() && s[i] != 0
        invariant
            i <= s@.len(),
            forall|j: int| 0 <= j < i ==> s@[j] != 0,
            text@ == s@.take(i as int),
        decreases s@.len() - i,
    {
        text.push(s[i]);
        i = i + 1;
        assert(text@ =~= s@.take(i as int));
    }
    proof {
        lemma_c_str_len(s@, i as nat);
    }
    match decode_text(text.as_slice()) {
        Some(t) => t,
        None => {
            proof {
                reveal_strlit("Invalid UTF-8 string");
            }
            String::from_str("Invalid UTF-8 string")
        },
    }
}

} // verus!
