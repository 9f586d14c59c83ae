use vstd::prelude::*;

verus! {

/// The serialization of `s` parsed as a URL, or `None` where it does not parse.
pub uninterp spec fn url_serialization(s: Seq<char>) -> Option<Seq<char>>;

/// Relies on `url::Url::parse`, and on `String::from(Url)`, which hands back
/// the parsed URL's serialization. Which strings parse, and how they are
/// normalised, is up to the url crate.
#[verifier::external_body]
fn parse_url(s: &str) -> (r: Result<String, String>)
    ensures
        r matches Ok(u) ==> url_serialization(s@) == Some(u@),
        r is Err ==> url_serialization(s@) is None,
{
    match url::Url::parse(s) {
        Ok(u) => Ok(String::from(u)),
        Err(e) => Err(e.to_string()),
    }
}

/// Why a connection attempt failed.
pub enum ConnectError {
    /// The address is not a URL, with the parser's message.
    InvalidAddress(String),
    /// The URL's scheme is neither `ws` nor `wss`; the URL is handed back.
    UnsupportedScheme(String),
    /// The transport-level handshake failed, with the transport's message.
    Handshake(String),
}

pub open spec fn ws_prefix() -> Seq<char> {
    seq!['w', 's', ':', '/', '/']
}

pub open spec fn wss_prefix() -> Seq<char> {
    seq!['w', 's', 's', ':', '/', '/']
}

pub open spec fn is_prefix_of(p: Seq<char>, s: Seq<char>) -> bool {
    p.len() <= s.len() && s.subrange(0, p.len() as int) == p
}

/// A WebSocket target: plain `ws://` or TLS-wrapped `wss://`.
pub open spec fn has_ws_scheme(u: Seq<char>) -> bool {
    is_prefix_of(ws_prefix(), u) || is_prefix_of(wss_prefix(), u)
}

fn starts_with(s: &str, p: &str) -> (b: bool)
    ensures
        b == is_prefix_of(p@, s@),
{
    let n = s.unicode_len();
    let m = p.unicode_len();
    if m > n {
        return false;
    }
    let mut i: usize = 0;
    while i < m
        invariant
            m == p@.len(),
            m <= n,
            n == s@.len(),
            i <= m,
            forall|j: int| 0 <= j < i ==> s@[j] == p@[j],
        decreases m - i,
    {
        if s.get_char(i) != p.get_char(i) {
            assert(s@.subrange(0, m as int)[i as int] != p@[i as int]);
            return false;
        }
        i = i + 1;
    }
    assert(s@.subrange(0, m as int) =~= p@);
    true
}

/// Accepts a parsed URL as a session target when its scheme is `ws` or `wss`.
pub fn check_scheme(url: String) -> (r: Result<String, ConnectError>)
    ensures
        has_ws_scheme(url@) ==> (r matches Ok(u) && u@ == url@),
        !has_ws_scheme(url@) ==> (r matches Err(ConnectError::UnsupportedScheme(u)) && u@ == url@),
{
    let plain = starts_with(url.as_str(), "ws://");
    let tls = starts_with(url.as_str(), "wss://");
    proof {
        reveal_strlit("ws://");
        reveal_strlit("wss://");
        assert("ws://"@ =~= ws_prefix());
        assert("wss://"@ =~= wss_prefix());
    }
    if plain || tls {
        Ok(url)
    } else {
        Err(ConnectError::UnsupportedScheme(url))
    }
}

/// Parses a `ws://host:port/path` or `wss://...` address into the URL that the
/// client handshake is made against.
pub fn parse_target(address: &str) -> (r: Result<String, ConnectError>)
    ensures
        url_serialization(address@) is None <==> r matches Err(ConnectError::InvalidAddress(_)),
        url_serialization(address@) matches Some(u) ==> {
            &&& has_ws_scheme(u) ==> (r matches Ok(t) && t@ == u)
            &&& !has_ws_scheme(u) ==> (r matches Err(ConnectError::UnsupportedScheme(t)) && t@ == u)
        },
{
    match parse_url(address) {
        Ok(u) => check_scheme(u),
        Err(e) => Err(ConnectError::InvalidAddress(e)),
    }
}

} // verus!
