//! The string handling of the authentication handshake: the URLs it uses and
//! the values read from its form-encoded responses.
use vstd::prelude::*;

verus! {

/// The base of every API endpoint.
pub const ENDPOINT: &'static str = "https://getpocket.com/v3";

/// Where the user is sent back after authorizing.
pub const REDIRECT_URL: &'static str = "https://getpocket.com";

/// The URL of the API method `method` (such as `/get`).
pub fn endpoint_url(method: &str) -> (r: String)
    ensures
        r@ == ENDPOINT@ + method@,
{
    let mut s = String::from_str(ENDPOINT);
    s.append(method);
    s
}

/// The page where the user approves the request token `token`.
pub fn authorization_url(token: &String) -> (r: String)
    ensures
        r@ == "https://getpocket.com/auth/authorize?request_token="@ + token@ + "&redirect_uri="@
            + REDIRECT_URL@,
{
    let mut s = String::from_str("https://getpocket.com/auth/authorize?request_token=");
    s.append(token.as_str());
    s.append("&redirect_uri=");
    s.append(REDIRECT_URL);
    s
}

/// The index of the first `c` in `s`.
pub open spec fn find_char(s: Seq<char>, c: char) -> Option<nat>
    decreases s.len(),
{
    if s.len() == 0 {
        None
    } else if s[0] == c {
        Some(0)
    } else {
        match find_char(s.drop_first(), c) {
            Some(i) => Some(i + 1),
            None => None,
        }
    }
}

/// What comes before the first `c` of `s`; all of `s` where it has none.
pub open spec fn before_char(s: Seq<char>, c: char) -> Seq<char> {
    match find_char(s, c) {
        Some(i) => s.subrange(0, i as int),
        None => s,
    }
}

/// The second of the parts that `=` separates in `body`.
pub open spec fn second_value(body: Seq<char>) -> Option<Seq<char>> {
    match find_char(body, '=') {
        Some(i) => Some(before_char(body.subrange((i + 1) as int, body.len() as int), '=')),
        None => None,
    }
}

/// The authorization code in `body`: the second `=`-separated part, up to
/// its first `&`.
pub open spec fn authorization_code_of(body: Seq<char>) -> Option<Seq<char>> {
    match second_value(body) {
        Some(v) => Some(before_char(v, '&')),
        None => None,
    }
}

proof fn lemma_find_char(s: Seq<char>, c: char, i: int)
    requires
        0 <= i <= s.len(),
        forall|j: int| 0 <= j < i ==> s[j] != c,
    ensures
        i < s.len() && s[i] == c ==> find_char(s, c) == Some(i as nat),
        i == s.len() ==> find_char(s, c) is None,
    decreases i,
{
    if i > 0 {
        lemma_find_char(s.drop_first(), c, i - 1);
    } else if s.len() > 0 {
        assert(s[0] == s[i]);
    }
}

/// The index of the first `c` in `s`.
fn position(s: &str, c: char) -> (r: Option<usize>)
    ensures
        match r {
            Some(i) => i < s@.len() && find_char(s@, c) == Some(i as nat),
            None => find_char(s@, c) is None,
        },
{
    let n = s.unicode_len();
    let mut i: usize = 0;
    while i < n
        invariant
            n == s@.len(),
            i <= n,
            forall|j: int| 0 <= j < i ==> s@[j] != c,
        decreases n - i,
    {
        if s.get_char(i) == c {
            proof {
                lemma_find_char(s@, c, i as int);
            }
            return Some(i);
        }
        i = i + 1;
    }
    proof {
        lemma_find_char(s@, c, i as int);
    }
    None
}

/// What comes before the first `c` of `s`.
fn prefix_before(s: &str, c: char) -> (r: &str)
    ensures
        r@ == before_char(s@, c),
{
    match position(s, c) {
        Some(i) => s.substring_char(0, i),
        None => s,
    }
}

/// The request token in the body of a token response (`code=<token>`).
pub fn parse_request_token(body: &str) -> (r: Option<String>)
    ensures
        opt_text(r) == second_value(body@),
{
    let n = body.unicode_len();
    match position(body, '=') {
        Some(i) => {
            let rest = body.substring_char(i + 1, n);
            Some(prefix_before(rest, '=').to_string())
        },
        None => None,
    }
}

/// The authorization code in the body of an authorization response
/// (`access_token=<code>&username=...`).
pub fn parse_authorization_code(body: &str) -> (r: Option<String>)
    ensures
        opt_text(r) == authorization_code_of(body@),
{
    match parse_request_token(body) {
        Some(v) => Some(prefix_before(v.as_str(), '&').to_string()),
        None => None,
    }
}

pub open spec fn opt_text(o: Option<String>) -> Option<Seq<char>> {
    match o {
        Some(s) => Some(s@),
        None => None,
    }
}

} // verus!
