//! The replies of the attendance system, how they map to domain errors, and
//! the headers its WeChat-facing endpoints expect.

use vstd::prelude::*;

use crate::domain::error::{DomainError, ErrorSource};
use crate::domain::school::session::SchoolSession;
use crate::text::valid_header_value;
use crate::time::{TimeZone, UtcTime};
use crate::utils::headers::{header_views, insert_header_str};

verus! {

/// The zone of the school's business times; domain values stay in UTC and
/// are read in this zone only where the school's API is spoken to.
pub fn school_time_zone() -> (r: TimeZone)
    ensures
        r.name_spec() == "Asia/Shanghai"@,
{
    TimeZone::shanghai()
}

/// The reply of the token endpoint.
#[derive(Debug)]
pub struct TokenResp {
    pub access_token: Option<String>,
    pub refresh_token: Option<String>,
    pub expires_in: Option<i64>,
    pub error_description: Option<String>,
}

/// The envelope of a business reply.
#[derive(Debug)]
pub struct ApiResp<T> {
    pub code: i64,
    pub msg: String,
    pub data: Option<T>,
}

/// A page of sign-in tasks.
#[derive(Debug)]
pub struct TaskListData {
    pub records: Vec<TaskItem>,
}

/// A sign-in task as the school lists it: dates as `YYYY-MM-DD`, times as
/// `HH:MM`, the week days as Chinese day names.
#[derive(Debug)]
pub struct TaskItem {
    pub task_id: String,
    pub task_name: String,
    pub task_start_date: String,
    pub task_end_date: String,
    pub sign_start_time: String,
    pub sign_end_time: String,
    pub sign_week: String,
}

/// The school could not be reached, or its reply could not be read.
pub fn map_transport_err() -> (r: DomainError)
    ensures
        r == (DomainError::RemoteUnavailable { origin: ErrorSource::School }),
{
    DomainError::RemoteUnavailable { origin: ErrorSource::School }
}

/// Whether `e` is the school's rejection with this code and message.
pub open spec fn is_upstream_rejection(e: DomainError, code: i64, msg: Seq<char>) -> bool {
    e matches DomainError::UpstreamRejected { origin, code: c, message } && origin
        == ErrorSource::School && c == Some(code) && message@ == msg
}

/// The school rejected a request with this code and message.
pub fn map_upstream_rejected(code: i64, msg: String) -> (r: DomainError)
    ensures
        is_upstream_rejection(r, code, msg@),
{
    DomainError::UpstreamRejected { origin: ErrorSource::School, code: Some(code), message: msg }
}

/// Passes a reply with code 200 on, and turns any other into the school's
/// rejection.
pub fn ensure_api_success<T>(resp: ApiResp<T>) -> (r: Result<ApiResp<T>, DomainError>)
    ensures
        resp.code == 200 ==> r == Ok::<ApiResp<T>, DomainError>(resp),
        resp.code != 200 ==> r is Err && is_upstream_rejection(r->Err_0, resp.code, resp.msg@),
{
    if resp.code == 200 {
        Ok(resp)
    } else {
        Err(map_upstream_rejected(resp.code, resp.msg))
    }
}

/// The header `name: value`, if the value may stand in a header.
pub open spec fn header_if_valid(name: Seq<char>, value: Seq<char>) -> Seq<(Seq<char>, Seq<char>)> {
    if valid_header_value(value) {
        seq![(name, value)]
    } else {
        Seq::empty()
    }
}

/// The headers of a request to a WeChat-facing endpoint, in order: the fixed
/// authorization (empty where it may not stand in a header), the user agent,
/// the JSON content type, the WeChat client markers, the referer if given,
/// and the two signature headers; a user agent, referer or signature that
/// may not stand in a header is left out.
pub open spec fn wechat_headers_spec(
    authorization: Seq<char>,
    user_agent: Seq<char>,
    signer_auth: Seq<char>,
    signer_sign: Seq<char>,
    referer: Option<Seq<char>>,
) -> Seq<(Seq<char>, Seq<char>)> {
    seq![
        (
            "authorization"@,
            if valid_header_value(authorization) {
                authorization
            } else {
                Seq::empty()
            },
        ),
    ] + header_if_valid("user-agent"@, user_agent) + seq![
        ("content-type"@, "application/json;charset=UTF-8"@),
        ("x-requested-with"@, "com.tencent.mm"@),
        ("origin"@, "https://xskq.ahut.edu.cn"@),
    ] + match referer {
        Some(r) => header_if_valid("referer"@, r),
        None => Seq::empty(),
    } + header_if_valid("flysource-auth"@, signer_auth) + header_if_valid(
        "flysource-sign"@,
        signer_sign,
    )
}

/// Appends `name: value` when the value may stand in a header.
fn push_if_valid(headers: &mut Vec<(String, String)>, name: &str, value: &str)
    ensures
        header_views(final(headers)@) == header_views(old(headers)@) + header_if_valid(
            name@,
            value@,
        ),
{
    let ghost before = headers@;
    match insert_header_str(headers, name, value) {
        Ok(()) => {
            proof {
                assert(header_views(before).push((name@, value@)) =~= header_views(before)
                    + header_if_valid(name@, value@));
            }
        },
        Err(_) => {
            proof {
                assert(header_views(before) + header_if_valid(name@, value@) =~= header_views(
                    before,
                ));
            }
        },
    }
}

/// The headers of a request to a WeChat-facing endpoint (the session does not
/// enter them).
pub fn build_wechat_headers(
    session: &SchoolSession,
    school_fixed_authorization: &str,
    user_agent: &str,
    signer_auth: String,
    signer_sign: String,
    referer: Option<String>,
) -> (r: Vec<(String, String)>)
    ensures
        header_views(r@) == wechat_headers_spec(
            school_fixed_authorization@,
            user_agent@,
            signer_auth@,
            signer_sign@,
            match referer {
                Some(x) => Some(x@),
                None => None,
            },
        ),
{
    let mut headers: Vec<(String, String)> = Vec::new();
    proof {
        reveal_strlit("");
        assert(header_views(headers@) =~= Seq::<(Seq<char>, Seq<char>)>::empty());
    }
    let auth_value = if crate::text::is_valid_header_value(school_fixed_authorization) {
        school_fixed_authorization
    } else {
        ""
    };
    proof {
        assert(""@ =~= Seq::<char>::empty());
        assert(auth_value@ == if valid_header_value(school_fixed_authorization@) {
            school_fixed_authorization@
        } else {
            Seq::empty()
        });
    }
    let auth_entry = ("authorization".to_string(), auth_value.to_string());
    headers.push(auth_entry);
    let ghost h1 = header_views(headers@);
    proof {
        assert(h1 =~= seq![
            (
                "authorization"@,
                if valid_header_value(school_fixed_authorization@) {
                    school_fixed_authorization@
                } else {
                    Seq::empty()
                },
            ),
        ]);
    }
    push_if_valid(&mut headers, "user-agent", user_agent);
    let ghost h2 = header_views(headers@);
    headers.push(("content-type".to_string(), "application/json;charset=UTF-8".to_string()));
    headers.push(("x-requested-with".to_string(), "com.tencent.mm".to_string()));
    headers.push(("origin".to_string(), "https://xskq.ahut.edu.cn".to_string()));
    let ghost h3 = header_views(headers@);
    proof {
        assert(h3 =~= h2 + seq![
            ("content-type"@, "application/json;charset=UTF-8"@),
            ("x-requested-with"@, "com.tencent.mm"@),
            ("origin"@, "https://xskq.ahut.edu.cn"@),
        ]);
    }
    let ghost rv = match &referer {
        Some(x) => Some(x@),
        None => None,
    };
    match &referer {
        Some(r) => push_if_valid(&mut headers, "referer", r.as_str()),
        None => {},
    }
    let ghost h4 = header_views(headers@);
    proof {
        assert(h4 =~= h3 + match rv {
            Some(r) => header_if_valid("referer"@, r),
            None => Seq::empty(),
        });
    }
    push_if_valid(&mut headers, "flysource-auth", signer_auth.as_str());
    push_if_valid(&mut headers, "flysource-sign", signer_sign.as_str());
    proof {
        assert(header_views(headers@) =~= wechat_headers_spec(
            school_fixed_authorization@,
            user_agent@,
            signer_auth@,
            signer_sign@,
            rv,
        ));
    }
    headers
}

/// The expiry of a token issued at `now_utc` that lives `expires_in_secs`
/// seconds.
pub fn token_expired_at(now_utc: &UtcTime, expires_in_secs: i64) -> (r: UtcTime)
    requires
        now_utc.can_add_seconds(expires_in_secs),
    ensures
        r.secs_spec() == now_utc.secs_spec() + expires_in_secs,
        r.nanos_spec() == now_utc.nanos_spec(),
        r.ns() == now_utc.ns() + expires_in_secs * 1_000_000_000,
{
    now_utc.add_seconds(expires_in_secs)
}

} // verus!
