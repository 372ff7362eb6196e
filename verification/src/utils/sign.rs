//! The `flysource-auth` and `flysource-sign` headers of the attendance API.

use vstd::prelude::*;

use crate::text::{push_signed_decimal, signed_decimal, valid_header_value};
use crate::utils::headers::{header_views, insert_header_str, InvalidHeaderValue};
use crate::utils::hash::{base64_standard, encode_base64, encode_md5, md5_hex};
use crate::utils::url::{sign_path_spec, to_sign_path, url_path};

verus! {

/// `bearer {token}`.
pub open spec fn flysource_auth(token: Seq<char>) -> Seq<char> {
    "bearer "@ + token
}

/// The signature at a timestamp in milliseconds:
/// `md5(path + "?sign=" + md5(ts + token)) + "1." + base64(ts)`, with `path`
/// the signed base of the URL.
pub open spec fn flysource_sign_spec(url: Seq<char>, token: Seq<char>, timestamp_millis: i64) -> Seq<char> {
    let ts = signed_decimal(timestamp_millis as int);
    let hash1 = md5_hex(ts + token);
    let hash2 = md5_hex(sign_path_spec(url, url_path(url)) + hash1);
    hash2 + "1."@ + base64_standard(vstd::utf8::encode_utf8(ts))
}

/// The `flysource-auth` header value for `token`.
pub fn generate_flysource_auth(token: &str) -> (r: String)
    ensures
        r@ == flysource_auth(token@),
{
    let mut out = "bearer ".to_owned();
    out.append(token);
    out
}

/// The current time in milliseconds since the Unix epoch; the clock is not
/// stated.
#[verifier::external_body]
fn current_timestamp_millis() -> i64 {
    chrono::Utc::now().timestamp_millis()
}

/// The `flysource-sign` header value at the given timestamp.
pub fn flysource_sign_at(url: &str, token: &str, timestamp_millis: i64) -> (r: String)
    ensures
        r@ == flysource_sign_spec(url@, token@, timestamp_millis),
{
    let mut timestamp = String::new();
    push_signed_decimal(&mut timestamp, timestamp_millis);
    let mut first = timestamp.clone();
    first.append(token);
    let hash1 = encode_md5(first.as_str());
    let mut second = to_sign_path(url);
    second.append(hash1.as_str());
    let hash2 = encode_md5(second.as_str());
    let mut out = hash2;
    out.append("1.");
    let encoded = encode_base64(timestamp.as_str());
    out.append(encoded.as_str());
    proof {
        assert(timestamp@ =~= signed_decimal(timestamp_millis as int));
    }
    out
}

/// The `flysource-sign` header value now.
pub fn generate_flysource_sign(url: &str, token: &str) -> (r: String)
    ensures
        exists|ts: i64| r@ == flysource_sign_spec(url@, token@, ts),
{
    let ts = current_timestamp_millis();
    flysource_sign_at(url, token, ts)
}

/// The headers of a signed request at a timestamp: the fixed authorization,
/// `flysource-auth` and `flysource-sign`, in that order; `None` where one of
/// the values may not stand in a header.
pub open spec fn app_signed_headers_spec(
    url: Seq<char>,
    token: Seq<char>,
    authorization: Seq<char>,
    timestamp_millis: i64,
) -> Option<Seq<(Seq<char>, Seq<char>)>> {
    let auth = flysource_auth(token);
    let sign = flysource_sign_spec(url, token, timestamp_millis);
    if valid_header_value(authorization) && valid_header_value(auth) && valid_header_value(sign) {
        Some(seq![("authorization"@, authorization), ("flysource-auth"@, auth), ("flysource-sign"@, sign)])
    } else {
        None
    }
}

/// The signed request headers at the given timestamp.
pub fn app_signed_headers_at(url: &str, token: &str, authorization: &str, timestamp_millis: i64) -> (r:
    Result<Vec<(String, String)>, InvalidHeaderValue>)
    ensures
        match app_signed_headers_spec(url@, token@, authorization@, timestamp_millis) {
            Some(h) => r is Ok && header_views(r->Ok_0@) == h,
            None => r is Err,
        },
{
    let mut headers: Vec<(String, String)> = Vec::new();
    proof {
        reveal_strlit("authorization");
        reveal_strlit("flysource-auth");
        reveal_strlit("flysource-sign");
        assert(header_views(headers@) =~= Seq::<(Seq<char>, Seq<char>)>::empty());
    }
    insert_header_str(&mut headers, "authorization", authorization)?;
    let auth = generate_flysource_auth(token);
    insert_header_str(&mut headers, "flysource-auth", auth.as_str())?;
    let sign = flysource_sign_at(url, token, timestamp_millis);
    insert_header_str(&mut headers, "flysource-sign", sign.as_str())?;
    proof {
        assert(header_views(headers@) =~= seq![
            ("authorization"@, authorization@),
            ("flysource-auth"@, auth@),
            ("flysource-sign"@, sign@),
        ]);
    }
    Ok(headers)
}

/// The signed request headers now.
pub fn build_app_signed_headers(url: &str, token: &str, authorization: &str) -> (r: Result<
    Vec<(String, String)>,
    InvalidHeaderValue,
>)
    ensures
        exists|ts: i64|
            match #[trigger] app_signed_headers_spec(url@, token@, authorization@, ts) {
                Some(h) => r is Ok && header_views(r->Ok_0@) == h,
                None => r is Err,
            },
{
    let ts = current_timestamp_millis();
    app_signed_headers_at(url, token, authorization, ts)
}

} // verus!
