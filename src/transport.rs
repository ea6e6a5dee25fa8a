//! Header fields of the requests sent to the service.

use crate::constants::BIZ_ID;
use vstd::prelude::*;

verus! {

/// Accept value of every request.
pub const ACCEPT_VALUE: &'static str = "application/json, text/plain, */*";

/// Content type of JSON requests.
pub const JSON_CONTENT_TYPE: &'static str = "application/json";

/// Content type of framed upload blocks.
pub const OCTET_STREAM_CONTENT_TYPE: &'static str = "application/octet-stream";

/// Header fields of a request with `content_type`: Accept, Content-Type and the
/// business id, then the session id when the request carries one.
pub open spec fn headers_of(content_type: Seq<char>, session_id: Option<Seq<char>>) -> Seq<
    (Seq<char>, Seq<char>),
> {
    let fixed = seq![
        ("Accept"@, ACCEPT_VALUE@),
        ("Content-Type"@, content_type),
        ("X-Biz-Id"@, BIZ_ID@),
    ];
    match session_id {
        Some(s) => fixed.push(("X-Session-Id"@, s)),
        None => fixed,
    }
}

/// The views of a list of header fields.
pub open spec fn header_views(h: Seq<(String, String)>) -> Seq<(Seq<char>, Seq<char>)> {
    h.map_values(|p: (String, String)| (p.0@, p.1@))
}

/// The header fields of a request. The upload registration sends no session id;
/// every other request sends the credential under the session header.
pub fn request_headers(content_type: &str, session_id: Option<&str>) -> (r: Vec<(String, String)>)
    ensures
        header_views(r@) == headers_of(
            content_type@,
            match session_id {
                Some(s) => Some(s@),
                None => None,
            },
        ),
{
    let mut r: Vec<(String, String)> = Vec::new();
    r.push((String::from_str("Accept"), String::from_str(ACCEPT_VALUE)));
    r.push((String::from_str("Content-Type"), String::from_str(content_type)));
    r.push((String::from_str("X-Biz-Id"), String::from_str(BIZ_ID)));
    match session_id {
        Some(s) => {
            r.push((String::from_str("X-Session-Id"), String::from_str(s)));
        },
        None => {},
    }
    assert(header_views(r@) =~= headers_of(
        content_type@,
        match session_id {
            Some(s) => Some(s@),
            None => None,
        },
    ));
    r
}

} // verus!
