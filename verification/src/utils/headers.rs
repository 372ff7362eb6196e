//! Request headers as an ordered list of `(name, value)` pairs; the HTTP
//! layer inserts them in order, a later pair replacing an earlier one of the
//! same name.

use vstd::prelude::*;

use crate::text::{is_valid_header_value, valid_header_value};

verus! {

/// A header value that HTTP does not allow (a control character other than
/// the tab).
#[derive(Debug, Clone, Copy, PartialEq, Eq)]
pub struct InvalidHeaderValue;

impl InvalidHeaderValue {
    /// The error's text.
    pub fn message(&self) -> (r: String)
        ensures
            r@ == "failed to parse header value"@,
    {
        "failed to parse header value".to_string()
    }
}

/// The views of a list of header pairs.
pub open spec fn header_views(h: Seq<(String, String)>) -> Seq<(Seq<char>, Seq<char>)> {
    h.map_values(|p: (String, String)| (p.0@, p.1@))
}

/// Appends `key: value` when `value` may stand in a header; leaves the list
/// as it was and reports the value otherwise.
pub fn insert_header_str(headers: &mut Vec<(String, String)>, key: &str, value: &str) -> (r: Result<
    (),
    InvalidHeaderValue,
>)
    ensures
        r is Ok <==> valid_header_value(value@),
        r is Ok ==> header_views(final(headers)@) == header_views(old(headers)@).push((key@, value@)),
        r is Err ==> final(headers)@ == old(headers)@,
{
    if is_valid_header_value(value) {
        let ghost before = headers@;
        headers.push((key.to_string(), value.to_string()));
        proof {
            assert(header_views(headers@) =~= header_views(before).push((key@, value@)));
        }
        Ok(())
    } else {
        Err(InvalidHeaderValue)
    }
}

} // verus!
