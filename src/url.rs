//! The URLs that provisioning requests are sent to.
use vstd::prelude::*;
use crate::error::InstagresError;
use crate::referrer::{is_blank, is_blank_spec};
use crate::request_id::{fresh_request_id, is_request_id};

verus! {

/// Everything of a target URL that comes before the request identifier.
pub open spec fn database_prefix() -> Seq<char> {
    "https://neon.new/api/v1/database/"@
}

/// What stands between the request identifier and the referrer.
pub open spec fn referrer_query() -> Seq<char> {
    "?referrer="@
}

/// The path segment that the typed operations append.
pub open spec fn create_suffix() -> Seq<char> {
    "/create"@
}

/// The per-request URL for a referrer and a request identifier; the
/// referrer is put in as it is, without escaping.
pub open spec fn base_url_spec(referrer: Seq<char>, request_id: Seq<char>) -> Seq<char> {
    database_prefix() + request_id + referrer_query() + referrer
}

/// The URL that the typed operations post to.
pub open spec fn create_url_spec(referrer: Seq<char>, request_id: Seq<char>) -> Seq<char> {
    base_url_spec(referrer, request_id) + create_suffix()
}

/// `t` occurs in `s` as a contiguous run.
pub open spec fn contains_spec(s: Seq<char>, t: Seq<char>) -> bool {
    exists|i: int| 0 <= i && i + t.len() <= s.len() && #[trigger] s.subrange(i, i + t.len()) == t
}

/// `s` ends with `t`.
pub open spec fn ends_with_spec(s: Seq<char>, t: Seq<char>) -> bool {
    t.len() <= s.len() && s.subrange(s.len() - t.len(), s.len() as int) == t
}

/// The per-request URL for `referrer`, with `request_id` as the identifier.
/// A blank referrer is refused.
pub fn base_url_with_id(referrer: &str, request_id: &str) -> (r: Result<String, InstagresError>)
    ensures
        is_blank_spec(referrer@) ==> r == Err::<String, InstagresError>(
            InstagresError::InvalidArgument,
        ),
        !is_blank_spec(referrer@) ==> (r matches Ok(url) && url@ == base_url_spec(
            referrer@,
            request_id@,
        )),
{
    if is_blank(referrer) {
        return Err(InstagresError::InvalidArgument);
    }
    let mut url = String::from_str("https://neon.new/api/v1/database/");
    url.append(request_id);
    url.append("?referrer=");
    url.append(referrer);
    Ok(url)
}

/// The URL that the typed operations post to, for `referrer` and with
/// `request_id` as the identifier. A blank referrer is refused.
pub fn create_url_with_id(referrer: &str, request_id: &str) -> (r: Result<String, InstagresError>)
    ensures
        is_blank_spec(referrer@) ==> r == Err::<String, InstagresError>(
            InstagresError::InvalidArgument,
        ),
        !is_blank_spec(referrer@) ==> (r matches Ok(url) && url@ == create_url_spec(
            referrer@,
            request_id@,
        )),
{
    let mut url = base_url_with_id(referrer, request_id)?;
    url.append("/create");
    Ok(url)
}

/// The per-request URL for `referrer`, under a freshly minted identifier.
/// A blank referrer is refused before any identifier is minted.
pub fn get_base_url(referrer: &str) -> (r: Result<String, InstagresError>)
    ensures
        is_blank_spec(referrer@) ==> r == Err::<String, InstagresError>(
            InstagresError::InvalidArgument,
        ),
        !is_blank_spec(referrer@) ==> (r matches Ok(url) && exists|id: Seq<char>|
            is_request_id(id) && url@ == base_url_spec(referrer@, id)),
{
    if is_blank(referrer) {
        return Err(InstagresError::InvalidArgument);
    }
    let request_id = fresh_request_id();
    base_url_with_id(referrer, request_id.as_str())
}

/// The URL that the typed operations post to, for `referrer`, under a freshly
/// minted identifier. A blank referrer is refused before any identifier is minted.
pub fn create_url(referrer: &str) -> (r: Result<String, InstagresError>)
    ensures
        is_blank_spec(referrer@) ==> r == Err::<String, InstagresError>(
            InstagresError::InvalidArgument,
        ),
        !is_blank_spec(referrer@) ==> (r matches Ok(url) && exists|id: Seq<char>|
            is_request_id(id) && url@ == create_url_spec(referrer@, id)),
{
    if is_blank(referrer) {
        return Err(InstagresError::InvalidArgument);
    }
    let request_id = fresh_request_id();
    create_url_with_id(referrer, request_id.as_str())
}

} // verus!
