//! The JSON body of a record update.
//!
//! The provider expects one JSON object naming the record and its new
//! content. Its field values are JSON string literals; the encoding of a
//! piece of text as such a literal is delegated to `serde_json`, and the
//! object around them is assembled, character for character, here.

use vstd::prelude::*;
use vstd::string::StringExecFns;

verus! {

/// The JSON string literal (quotes and escapes included) that encodes the
/// text `s`, as `serde_json` writes it.
pub uninterp spec fn json_string_of(s: Seq<char>) -> Seq<char>;

/// Whether `c` passes into a JSON string literal unescaped: everything but
/// the quote, the backslash and the control characters does.
pub open spec fn json_plain(c: char) -> bool {
    c != '"' && c != '\\' && c as u32 >= 0x20
}

/// Relies on `serde_json::to_string` on a string slice: it returns the
/// JSON string literal for exactly that text, a value of the characters
/// alone. Only the quote, the backslash and the control characters are
/// escaped; any other character is copied unchanged between the enclosing
/// quotes. Writing to the in-memory buffer cannot fail, so the call always
/// returns a value.
#[verifier::external_body]
fn json_quote(s: &str) -> (r: String)
    ensures
        r@ == json_string_of(s@),
        (forall|i: int| 0 <= i < s@.len() ==> json_plain(s@[i])) ==> r@ == seq!['"'] + s@
            + seq!['"'],
{
    serde_json::to_string(s).unwrap()
}

/// The comment written alongside the record: a fixed sentence naming the
/// address the update was computed from.
pub open spec fn comment_of(address: Seq<char>) -> Seq<char> {
    "Api called from "@ + address
}

/// The serialized update payload for a record named `domain` pointing at
/// `address`: name and content are the given texts, the TTL is fixed to
/// 3600 seconds, the type to AAAA, and proxying is off.
pub open spec fn payload_of(domain: Seq<char>, address: Seq<char>) -> Seq<char> {
    "{\"name\":"@ + json_string_of(domain) + ",\"ttl\":3600,\"type\":\"AAAA\",\"comment\":"@
        + json_string_of(comment_of(address)) + ",\"content\":"@ + json_string_of(address)
        + ",\"proxied\":false}"@
}

/// The comment text for `address`.
pub fn comment_text(address: &str) -> (r: String)
    ensures
        r@ == comment_of(address@),
{
    let mut out = String::from_str("Api called from ");
    out.append(address);
    out
}

/// Serializes the update payload for a record named `domain` pointing at
/// `address`.
pub fn build_payload(domain: &str, address: &str) -> (r: String)
    ensures
        r@ == payload_of(domain@, address@),
{
    let comment = comment_text(address);
    let mut out = String::from_str("{\"name\":");
    let quoted_domain = json_quote(domain);
    out.append(quoted_domain.as_str());
    out.append(",\"ttl\":3600,\"type\":\"AAAA\",\"comment\":");
    let quoted_comment = json_quote(comment.as_str());
    out.append(quoted_comment.as_str());
    out.append(",\"content\":");
    let quoted_address = json_quote(address);
    out.append(quoted_address.as_str());
    out.append(",\"proxied\":false}");
    proof {
        assert(out@ =~= payload_of(domain@, address@));
    }
    out
}

/// The comment embeds the address verbatim after its fixed prefix.
pub proof fn lemma_comment_embeds_address(address: Seq<char>)
    ensures
        comment_of(address).len() == 16 + address.len(),
        comment_of(address).skip(16) =~= address,
        comment_of(address).take(16) =~= "Api called from "@,
{
    reveal_strlit("Api called from ");
}

} // verus!
