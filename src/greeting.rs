use vstd::prelude::*;
use vstd::string::*;
use vstd::utf8::*;

use crate::boundary::{text_from_host, text_to_host, EncodingError};

verus! {

/// What comes before the name in a greeting.
pub open spec fn greeting_prefix() -> Seq<char> {
    "Hello, "@
}

/// What follows the name in a greeting.
pub open spec fn greeting_suffix() -> Seq<char> {
    "! This message is computed in Rust 🦀"@
}

/// The closing sentence that every greeting ends with.
pub open spec fn closing_sentence() -> Seq<char> {
    "This message is computed in Rust 🦀"@
}

/// The greeting for `name`: the name embedded verbatim between the fixed prefix and suffix.
pub open spec fn greeting(name: Seq<char>) -> Seq<char> {
    greeting_prefix() + name + greeting_suffix()
}

/// Builds the greeting for `name`.
pub fn greet(name: &str) -> (r: String)
    ensures
        r@ == greeting(name@),
{
    let mut r = String::from_str("Hello, ");
    r.append(name);
    r.append("! This message is computed in Rust 🦀");
    r
}

/// Greets a name handed in by the host as bytes; fails when the bytes are not UTF-8 text.
pub fn greet_from_host(name: &[u8]) -> (r: Result<Vec<u8>, EncodingError>)
    ensures
        r is Err <==> !valid_utf8(name@),
        r matches Ok(out) ==> out@ == encode_utf8(greeting(decode_utf8(name@))),
{
    match text_from_host(name) {
        Ok(text) => {
            let g = greet(text.as_str());
            Ok(text_to_host(g.as_str()))
        },
        Err(e) => Err(e),
    }
}

/// Every greeting holds the name as a contiguous run right after the prefix, and ends
/// with the closing sentence.
pub proof fn lemma_greeting_holds_name(name: Seq<char>)
    ensures
        greeting_prefix().len() == 7,
        greeting(name).subrange(7, 7 + name.len() as int) == name,
        greeting(name).len() >= closing_sentence().len(),
        greeting(name).subrange(
            greeting(name).len() - closing_sentence().len(),
            greeting(name).len() as int,
        ) == closing_sentence(),
{
    reveal_strlit("Hello, ");
    reveal_strlit("! This message is computed in Rust 🦀");
    reveal_strlit("This message is computed in Rust 🦀");
    let g = greeting(name);
    assert(g.subrange(7, 7 + name.len() as int) =~= name);
    assert(g.subrange(g.len() - closing_sentence().len(), g.len() as int) =~= closing_sentence());
}

/// A name handed in as UTF-8 bytes comes back out of the greeting unchanged: decoding the
/// bytes that the greeting is sent as gives the greeting again, and the characters after the
/// prefix are exactly the name's characters, non-ASCII ones included, whose bytes are the
/// bytes that came in.
pub proof fn lemma_host_name_reflected(name: Seq<u8>)
    requires
        valid_utf8(name),
    ensures
        decode_utf8(encode_utf8(greeting(decode_utf8(name)))) == greeting(decode_utf8(name)),
        greeting(decode_utf8(name)).subrange(7, 7 + decode_utf8(name).len() as int)
            == decode_utf8(name),
        encode_utf8(decode_utf8(name)) == name,
{
    crate::boundary::lemma_text_round_trip(name, greeting(decode_utf8(name)));
    lemma_greeting_holds_name(decode_utf8(name));
}

} // verus!
