use vstd::prelude::*;
use vstd::string::StringExecFns;

verus! {

/// A character that JSON writes as an escape sequence inside a string:
/// a control character, a quotation mark or a backslash.
pub open spec fn needs_escape(c: char) -> bool {
    (c as u32) < 0x20 || c == '"' || c == '\\'
}

/// Text that JSON writes inside quotation marks without any escape.
pub open spec fn escape_free(s: Seq<char>) -> bool {
    forall|i: int| 0 <= i < s.len() ==> !needs_escape(#[trigger] s[i])
}

/// `s` as a JSON string literal, when it needs no escape.
pub open spec fn quoted(s: Seq<char>) -> Seq<char> {
    seq!['"'] + s + seq!['"']
}

/// The compact JSON text of an object with one string-valued entry.
pub open spec fn single_entry_object(key: Seq<char>, value: Seq<char>) -> Seq<char> {
    seq!['{'] + quoted(key) + seq![':'] + quoted(value) + seq!['}']
}

/// Relies on serde_json::to_string for a str: it writes the text between
/// quotation marks and escapes only control characters, `"` and `\`.
#[verifier::external_body]
fn json_string(s: &str) -> (r: Option<String>)
    ensures
        escape_free(s@) ==> r is Some && r->Some_0@ == quoted(s@),
{
    serde_json::to_string(s).ok()
}

/// The compact JSON text `{"key":"value"}`.
pub(crate) fn single_entry_object_text(key: &str, value: &str) -> (r: String)
    requires
        escape_free(key@),
        escape_free(value@),
    ensures
        r@ == single_entry_object(key@, value@),
{
    match (json_string(key), json_string(value)) {
        (Some(k), Some(v)) => {
            proof {
                reveal_strlit("{");
                reveal_strlit(":");
                reveal_strlit("}");
            }
            let mut r = String::from_str("{");
            r.append(k.as_str());
            r.append(":");
            r.append(v.as_str());
            r.append("}");
            assert(r@ =~= single_entry_object(key@, value@));
            r
        },
        _ => String::new(),
    }
}

} // verus!
