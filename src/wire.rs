//! Request bodies of the three remote operations.
use vstd::prelude::*;
use vstd::string::StringExecFns;

verus! {

#[verifier::external_type_specification]
#[verifier::external_body]
pub struct ExJsonError(serde_json::Error);

/// The JSON text of a string value: the quoted, escaped literal.
pub uninterp spec fn json_quoted(s: Seq<char>) -> Seq<char>;

/// Relies on `serde_json::to_string` on a `str`: it writes the escaped, quoted
/// literal into an in-memory buffer, which cannot fail.
#[verifier::external_body]
fn quote_json(s: &str) -> (r: Result<String, serde_json::Error>)
    ensures
        r is Ok,
        r matches Ok(t) ==> t@ == json_quoted(s@),
{
    serde_json::to_string(s)
}

/// The JSON object with the single member `key: value`, in compact form.
pub open spec fn single_member_object(key: Seq<char>, value: Seq<char>) -> Seq<char> {
    seq!['{'] + json_quoted(key) + seq![':'] + json_quoted(value) + seq!['}']
}

/// Builds the compact JSON object `{"key":"value"}` used as a request body.
pub fn request_body(key: &str, value: &str) -> (r: String)
    ensures
        r@ == single_member_object(key@, value@),
{
    let k = match quote_json(key) {
        Ok(t) => t,
        Err(_) => String::new(),
    };
    let v = match quote_json(value) {
        Ok(t) => t,
        Err(_) => String::new(),
    };
    let mut out = String::from_str("{");
    out.append(k.as_str());
    out.append(":");
    out.append(v.as_str());
    out.append("}");
    proof {
        reveal_strlit("{");
        reveal_strlit(":");
        reveal_strlit("}");
        assert(out@ =~= single_member_object(key@, value@));
    }
    out
}

/// Body of a list-collections request for the named collection set.
pub fn collections_request(set_name: &str) -> (r: String)
    ensures
        r@ == single_member_object("name"@, set_name@),
{
    request_body("name", set_name)
}

/// Body of a list-items or get-detail request for one endpoint locator.
pub fn locator_request(url: &str) -> (r: String)
    ensures
        r@ == single_member_object("url"@, url@),
{
    request_body("url", url)
}

} // verus!
