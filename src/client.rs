//! The catalog client's decisions: the credential check, the request URLs and
//! headers, and how a response status is classified. Sending requests and
//! waiting on the rate limiter are the host's part.
use vstd::prelude::*;
use crate::types::ScraperError;

verus! {

/// Requests allowed per one-minute window; the host's rate limiter never
/// lets more through, and waits rather than fails.
pub const REQUESTS_PER_MINUTE: u32 = 60;

/// The remote API's largest page size.
pub const MAX_PER_PAGE: u32 = 100;

pub open spec fn digit_char(d: nat) -> char {
    ('0' as nat + d) as char
}

/// The decimal digits of `n`, most significant first, without leading zeros.
pub open spec fn decimal_text(n: nat) -> Seq<char>
    decreases n,
{
    if n < 10 {
        seq![digit_char(n)]
    } else {
        decimal_text(n / 10).push(digit_char(n % 10))
    }
}

fn digit_str(d: u64) -> (s: &'static str)
    requires
        d < 10,
    ensures
        s@ == seq![digit_char(d as nat)],
{
    proof {
        reveal_strlit("0");
        reveal_strlit("1");
        reveal_strlit("2");
        reveal_strlit("3");
        reveal_strlit("4");
        reveal_strlit("5");
        reveal_strlit("6");
        reveal_strlit("7");
        reveal_strlit("8");
        reveal_strlit("9");
    }
    let s = if d == 0 {
        "0"
    } else if d == 1 {
        "1"
    } else if d == 2 {
        "2"
    } else if d == 3 {
        "3"
    } else if d == 4 {
        "4"
    } else if d == 5 {
        "5"
    } else if d == 6 {
        "6"
    } else if d == 7 {
        "7"
    } else if d == 8 {
        "8"
    } else {
        "9"
    };
    assert(s@ =~= seq![digit_char(d as nat)]);
    s
}

/// `n` written in decimal.
pub fn decimal(n: u64) -> (s: String)
    ensures
        s@ == decimal_text(n as nat),
    decreases n,
{
    if n < 10 {
        digit_str(n).to_owned()
    } else {
        let mut s = decimal(n / 10);
        s.append(digit_str(n % 10));
        s
    }
}

pub open spec fn base_url() -> Seq<char> {
    seq![
        'h', 't', 't', 'p', 's', ':', '/', '/', 'a', 'p', 'i', '.', 'd', 'i', 's', 'c', 'o', 'g',
        's', '.', 'c', 'o', 'm',
    ]
}

pub open spec fn is_success(status: u16) -> bool {
    200 <= status <= 299
}

/// Credentials and request building for the remote catalog.
#[derive(Clone)]
pub struct DiscogsClient {
    token: String,
}

impl View for DiscogsClient {
    type V = Seq<char>;

    /// The access token.
    closed spec fn view(&self) -> Seq<char> {
        self.token@
    }
}

impl DiscogsClient {
    /// A client for `token`; an empty token is `MissingToken`.
    pub fn new(token: String) -> (r: Result<DiscogsClient, ScraperError>)
        ensures
            token@.len() == 0 ==> r == Err::<DiscogsClient, ScraperError>(ScraperError::MissingToken),
            token@.len() > 0 ==> (r matches Ok(c) && c@ == token@),
    {
        if token.as_str().unicode_len() == 0 {
            Err(ScraperError::MissingToken)
        } else {
            Ok(DiscogsClient { token })
        }
    }

    /// The value of the `Authorization` header: `Discogs token=<token>`.
    pub fn authorization(&self) -> (h: String)
        ensures
            h@ == "Discogs token="@ + self@,
    {
        let mut h: String = "Discogs token=".to_owned();
        h.append(self.token.as_str());
        h
    }

    /// `<base>/users/<seller>/inventory?page=<page>&per_page=<per_page>`.
    pub fn inventory_url(&self, seller: &str, page: u32, per_page: u32) -> (u: String)
        requires
            per_page <= MAX_PER_PAGE,
        ensures
            u@ == base_url() + "/users/"@ + seller@ + "/inventory?page="@ + decimal_text(
                page as nat,
            ) + "&per_page="@ + decimal_text(per_page as nat),
    {
        let mut u: String = "https://api.discogs.com".to_owned();
        proof {
            reveal_strlit("https://api.discogs.com");
        }
        assert(u@ =~= base_url());
        u.append("/users/");
        u.append(seller);
        u.append("/inventory?page=");
        let p = decimal(page as u64);
        u.append(p.as_str());
        u.append("&per_page=");
        let q = decimal(per_page as u64);
        u.append(q.as_str());
        u
    }

    /// `<base>/releases/<release_id>`.
    pub fn release_url(&self, release_id: u64) -> (u: String)
        ensures
            u@ == base_url() + "/releases/"@ + decimal_text(release_id as nat),
    {
        let mut u: String = "https://api.discogs.com".to_owned();
        proof {
            reveal_strlit("https://api.discogs.com");
        }
        assert(u@ =~= base_url());
        u.append("/releases/");
        let d = decimal(release_id);
        u.append(d.as_str());
        u
    }
}

/// The access token to use: the stored one when it is non-empty, else the
/// fallback (a development aid), else `MissingToken`.
pub fn resolve_token(stored: Option<String>, fallback: Option<String>) -> (r: Result<String, ScraperError>)
    ensures
        (stored matches Some(t) && t@.len() > 0) ==> r == Ok::<String, ScraperError>(stored->Some_0),
        !(stored matches Some(t) && t@.len() > 0) ==> r == (match fallback {
            Some(f) => Ok::<String, ScraperError>(f),
            None => Err(ScraperError::MissingToken),
        }),
{
    match stored {
        Some(t) => {
            if t.as_str().unicode_len() > 0 {
                return Ok(t);
            }
        },
        None => {},
    }
    match fallback {
        Some(f) => Ok(f),
        None => Err(ScraperError::MissingToken),
    }
}

/// How an inventory response's status decides the call: 429 is
/// `RateLimitExceeded`, another non-2xx status is `RemoteError` with the body,
/// and a success hands the body on for parsing.
pub fn check_inventory_status(status: u16, body: String) -> (r: Result<String, ScraperError>)
    ensures
        status == 429 ==> r == Err::<String, ScraperError>(ScraperError::RateLimitExceeded),
        status != 429 && !is_success(status) ==> r == Err::<String, ScraperError>(
            ScraperError::RemoteError { status, body },
        ),
        is_success(status) ==> r == Ok::<String, ScraperError>(body),
{
    if status == 429 {
        Err(ScraperError::RateLimitExceeded)
    } else if status < 200 || status > 299 {
        Err(ScraperError::RemoteError { status, body })
    } else {
        Ok(body)
    }
}

/// As [`check_inventory_status`], and 404 is `NotFound`.
pub fn check_release_status(status: u16, body: String) -> (r: Result<String, ScraperError>)
    ensures
        status == 429 ==> r == Err::<String, ScraperError>(ScraperError::RateLimitExceeded),
        status == 404 ==> r == Err::<String, ScraperError>(ScraperError::NotFound),
        status != 429 && status != 404 && !is_success(status) ==> r == Err::<String, ScraperError>(
            ScraperError::RemoteError { status, body },
        ),
        is_success(status) ==> r == Ok::<String, ScraperError>(body),
{
    if status == 404 {
        Err(ScraperError::NotFound)
    } else {
        check_inventory_status(status, body)
    }
}

} // verus!
