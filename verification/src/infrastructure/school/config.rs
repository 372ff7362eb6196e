//! Settings of the HTTP gateway to the attendance system: the API base
//! address and the user agents that requests present.

use rand::seq::SliceRandom;
use vstd::prelude::*;

use crate::text::{
    is_white_space, lemma_trim_ends, lemma_trim_end_stops, lemma_trim_start_stops,
    push_trimmed_nonblank_strings, string_views, trim, trim_start, trim_str,
    trimmed_nonblank,
};
use crate::utils::url::{lemma_strip_trailing_prefix, lemma_strip_trailing_take, strip_trailing};

verus! {

/// Connection settings of the attendance system's gateway. The durations are
/// kept as whole milliseconds or seconds, as they were configured.
#[derive(Debug, Clone)]
pub struct AhutGatewayConfig {
    pub base_url: String,
    pub fallback_user_agent: String,
    pub default_user_agent_pool: Vec<String>,
    pub connect_timeout_ms: u64,
    pub request_timeout_ms: u64,
    pub pool_idle_timeout_secs: u64,
    pub pool_max_idle_per_host: usize,
    pub tcp_keepalive_secs: u64,
}

/// The user agents a request may present: the configured pool, then the
/// user's own, each trimmed, blank ones left out.
pub open spec fn user_agent_candidates(pool: Seq<Seq<char>>, custom: Seq<Seq<char>>) -> Seq<
    Seq<char>,
> {
    trimmed_nonblank(pool) + trimmed_nonblank(custom)
}

/// `pool.choose(&mut rand::thread_rng())`, cloned: `None` exactly when the
/// pool is empty, else one of its items, picked at random.
#[verifier::external_body]
fn choose_one(pool: &Vec<String>) -> (r: Option<String>)
    ensures
        pool@.len() == 0 <==> r is None,
        r matches Some(s) ==> exists|i: int| 0 <= i < pool@.len() && s@ == (#[trigger] pool@[i])@,
{
    pool.choose(&mut rand::thread_rng()).cloned()
}

impl AhutGatewayConfig {
    /// A user agent for one request: a random candidate, or the fallback when
    /// there is none.
    pub fn pick_user_agent(&self, custom_user_agents: &[String]) -> (r: String)
        ensures
            ({
                let c = user_agent_candidates(
                    string_views(self.default_user_agent_pool@),
                    string_views(custom_user_agents@),
                );
                &&& c.len() == 0 ==> r@ == self.fallback_user_agent@
                &&& c.len() > 0 ==> exists|i: int| 0 <= i < c.len() && r@ == #[trigger] c[i]
            }),
    {
        let mut pool: Vec<String> = Vec::new();
        proof {
            assert(string_views(pool@) =~= Seq::<Seq<char>>::empty());
        }
        push_trimmed_nonblank_strings(&mut pool, self.default_user_agent_pool.as_slice());
        push_trimmed_nonblank_strings(&mut pool, custom_user_agents);
        let ghost c = string_views(pool@);
        proof {
            assert(c =~= user_agent_candidates(
                string_views(self.default_user_agent_pool@),
                string_views(custom_user_agents@),
            ));
        }
        match choose_one(&pool) {
            Some(ua) => {
                proof {
                    let i = choose|i: int| 0 <= i < pool@.len() && ua@ == (#[trigger] pool@[i])@;
                    assert(c[i] == pool@[i]@);
                }
                ua
            },
            None => self.fallback_user_agent.clone(),
        }
    }
}

/// The API base address: trimmed, trailing `/`s dropped, and ending in
/// `/api/`.
pub open spec fn normalized_base_url(raw: Seq<char>) -> Seq<char> {
    let t = strip_trailing(trim(raw), '/');
    if t.len() >= 4 && t.subrange(t.len() - 4, t.len() as int) == seq!['/', 'a', 'p', 'i'] {
        t + seq!['/']
    } else {
        t + seq!['/', 'a', 'p', 'i', '/']
    }
}

/// Normalising a normalised base address changes nothing.
pub proof fn lemma_normalize_idempotent(raw: Seq<char>)
    ensures
        normalized_base_url(normalized_base_url(raw)) == normalized_base_url(raw),
{
    let tr = trim(raw);
    let t = strip_trailing(tr, '/');
    let n = normalized_base_url(raw);
    lemma_trim_ends(raw);
    lemma_strip_trailing_prefix(tr, '/');
    let api = seq!['/', 'a', 'p', 'i'];
    let ends_api = t.len() >= 4 && t.subrange(t.len() - 4, t.len() as int) == api;
    let body = if ends_api {
        t
    } else {
        t + api
    };
    assert(n =~= body.push('/'));
    assert(body.len() >= 4 && body.subrange(body.len() - 4, body.len() as int) =~= api) by {
        if !ends_api {
            assert((t + api).subrange((t + api).len() - 4, (t + api).len() as int) =~= api);
        }
    }
    assert(body.last() == 'i') by {
        assert(body.subrange(body.len() - 4, body.len() as int)[3] == body.last());
    }
    // The normalised text is already trimmed.
    if t.len() > 0 {
        assert(n[0] == t[0] && t[0] == tr[0]);
    } else {
        assert(n[0] == '/');
    }
    assert(!is_white_space(n[0]));
    assert(!is_white_space(n.last()));
    lemma_trim_start_stops(n);
    lemma_trim_end_stops(trim_start(n));
    assert(trim(n) == n);
    // Stripping its trailing slash leaves `body`.
    assert(n.drop_last() =~= body);
    assert(strip_trailing(body, '/') == body);
    assert(strip_trailing(n, '/') == body);
}

/// Brings a configured base address to the form `.../api/`.
pub fn normalize_base_url(raw: &str) -> (r: String)
    ensures
        r@ == normalized_base_url(raw@),
{
    let trimmed = trim_str(raw);
    let n = trimmed.unicode_len();
    let mut j: usize = n;
    while j > 0 && trimmed.get_char(j - 1) == '/'
        invariant
            n == trimmed@.len(),
            j <= n,
            forall|k: int| j <= k < n ==> trimmed@[k] == '/',
        decreases j,
    {
        j = j - 1;
    }
    proof {
        lemma_strip_trailing_take(trimmed@, '/', j as int);
        reveal_strlit("/");
        reveal_strlit("/api/");
    }
    let t = trimmed.substring_char(0, j);
    let ghost tv = strip_trailing(trim(raw@), '/');
    proof {
        assert(t@ =~= tv);
    }
    let ends_with_api = j >= 4 && t.get_char(j - 4) == '/' && t.get_char(j - 3) == 'a'
        && t.get_char(j - 2) == 'p' && t.get_char(j - 1) == 'i';
    proof {
        if j >= 4 {
            let tail = tv.subrange(tv.len() - 4, tv.len() as int);
            assert(ends_with_api <==> tail =~= seq!['/', 'a', 'p', 'i']) by {
                assert(tail[0] == tv[j - 4]);
                assert(tail[1] == tv[j - 3]);
                assert(tail[2] == tv[j - 2]);
                assert(tail[3] == tv[j - 1]);
            }
        }
    }
    let mut out = t.to_string();
    if ends_with_api {
        out.append("/");
    } else {
        out.append("/api/");
    }
    proof {
        assert(out@ =~= normalized_base_url(raw@));
    }
    out
}

} // verus!
