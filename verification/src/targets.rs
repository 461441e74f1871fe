//! The two configured backend endpoints and the outbound URLs built from
//! them. Both are fixed at startup and read-only afterwards, so every
//! concurrent request can share one `BackendTargets` value.

use vstd::prelude::*;
use vstd::string::StringExecFns;

verus! {

/// Default port of the stable backend when configuration supplies none.
pub const DEFAULT_STABLE_PORT: u16 = 443;

/// Default port of the dev backend when configuration supplies none.
pub const DEFAULT_DEV_PORT: u16 = 8443;

/// Transport scheme used for the outbound calls to the backends; a
/// configuration choice, not hard-coded.
#[derive(Clone, Copy, Debug, PartialEq, Eq, Structural)]
pub enum Scheme {
    Http,
    Https,
}

/// The characters of a scheme as they stand at the front of a URL.
pub open spec fn scheme_chars(s: Scheme) -> Seq<char> {
    match s {
        Scheme::Http => "http"@,
        Scheme::Https => "https"@,
    }
}

impl Scheme {
    /// The scheme's URL prefix text.
    pub fn as_str(&self) -> (r: &'static str)
        ensures
            r@ == scheme_chars(*self),
    {
        match self {
            Scheme::Http => "http",
            Scheme::Https => "https",
        }
    }
}

/// One backend endpoint: enough to build an outbound URL for a given path.
#[derive(Clone, Debug)]
pub struct Endpoint {
    pub scheme: Scheme,
    pub host: String,
    pub port: u16,
}

/// The immutable pair of backend endpoints, resolved once at startup.
#[derive(Clone, Debug)]
pub struct BackendTargets {
    pub stable: Endpoint,
    pub dev: Endpoint,
}

impl Endpoint {
    /// Builds an endpoint from already-resolved configuration values.
    pub fn new(scheme: Scheme, host: String, port: u16) -> (e: Endpoint)
        ensures
            e.scheme == scheme,
            e.host@ == host@,
            e.port == port,
    {
        Endpoint { scheme, host, port }
    }
}

impl BackendTargets {
    /// Pairs the two already-resolved endpoints; the first is authoritative
    /// for the caller-visible status, the second only shadows traffic.
    pub fn resolve(stable: Endpoint, dev: Endpoint) -> (t: BackendTargets)
        ensures
            t.stable == stable,
            t.dev == dev,
    {
        BackendTargets { stable, dev }
    }
}

/// The decimal digit character for a value below ten.
pub open spec fn dec_char(d: int) -> char {
    if d == 0 {
        '0'
    } else if d == 1 {
        '1'
    } else if d == 2 {
        '2'
    } else if d == 3 {
        '3'
    } else if d == 4 {
        '4'
    } else if d == 5 {
        '5'
    } else if d == 6 {
        '6'
    } else if d == 7 {
        '7'
    } else if d == 8 {
        '8'
    } else {
        '9'
    }
}

/// The decimal representation of a nonnegative number, most significant
/// digit first, with no leading zeros (a single `'0'` for zero).
pub open spec fn dec_rep(n: int) -> Seq<char>
    decreases n,
{
    if n < 10 {
        seq![dec_char(n)]
    } else {
        dec_rep(n / 10).push(dec_char(n % 10))
    }
}

/// The full outbound URL for one endpoint and one inbound path, mirrored
/// verbatim onto the backend: `scheme://host:port` followed by the path.
pub open spec fn url_chars(e: Endpoint, path: Seq<char>) -> Seq<char> {
    scheme_chars(e.scheme) + "://"@ + e.host@ + ":"@ + dec_rep(e.port as int) + path
}

fn digit_str(d: u16) -> (r: &'static str)
    requires
        d < 10,
    ensures
        r@ == seq![dec_char(d as int)],
{
    proof {
        reveal_strlit("0");
        reveal_strlit("1");
        reveal_strlit("2");
        reveal_strlit("3");
        reveal_strlit("4");
        reveal_strlit("5");
        reveal_strlit("6");
        reveal_strlit("7");
        reveal_strlit("8");
        reveal_strlit("9");
        assert("0"@ =~= seq!['0']);
        assert("1"@ =~= seq!['1']);
        assert("2"@ =~= seq!['2']);
        assert("3"@ =~= seq!['3']);
        assert("4"@ =~= seq!['4']);
        assert("5"@ =~= seq!['5']);
        assert("6"@ =~= seq!['6']);
        assert("7"@ =~= seq!['7']);
        assert("8"@ =~= seq!['8']);
        assert("9"@ =~= seq!['9']);
    }
    match d {
        0 => "0",
        1 => "1",
        2 => "2",
        3 => "3",
        4 => "4",
        5 => "5",
        6 => "6",
        7 => "7",
        8 => "8",
        _ => "9",
    }
}

/// Appends the decimal digits of `n` to `out`.
fn push_decimal(out: &mut String, n: u16)
    ensures
        final(out)@ == old(out)@ + dec_rep(n as int),
    decreases n,
{
    if n >= 10 {
        push_decimal(out, n / 10);
    }
    out.append(digit_str(n % 10));
    proof {
        assert(out@ =~= old(out)@ + dec_rep(n as int));
    }
}

/// Builds the outbound URL for `e` and the given path text.
pub fn url_for(e: &Endpoint, path: &str) -> (r: String)
    ensures
        r@ == url_chars(*e, path@),
{
    let mut url = String::from_str(e.scheme.as_str());
    url.append("://");
    url.append(e.host.as_str());
    url.append(":");
    push_decimal(&mut url, e.port);
    url.append(path);
    proof {
        assert(url@ =~= url_chars(*e, path@));
    }
    url
}

} // verus!
