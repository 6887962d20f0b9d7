//! The identity subsystem's pure parts: the login and token-exchange URLs,
//! the access-token extraction from the provider's reply, and the bearer
//! token taken from an authorization header.  The HTTP calls themselves
//! are a thin relay and live outside the library.

use crate::proto::UserInfoResponse;
use crate::text::check_match_at;
use crate::text::match_at;
use crate::text::scan_word_chars;
use crate::text::word_run_end;
use vstd::prelude::*;

verus! {

/// Spec-level value of a [`GithubAuthService`].
pub struct GithubAuthServiceView {
    pub client_id: Seq<char>,
    pub client_secret: Seq<char>,
}

/// The OAuth application credentials the auth operations use.
#[derive(Debug)]
pub struct GithubAuthService {
    pub client_id: String,
    pub client_secret: String,
}

impl View for GithubAuthService {
    type V = GithubAuthServiceView;

    open spec fn view(&self) -> GithubAuthServiceView {
        GithubAuthServiceView { client_id: self.client_id@, client_secret: self.client_secret@ }
    }
}

/// The login link handed to a user starting authentication.
pub open spec fn spec_login_url(client_id: Seq<char>, state: Seq<char>) -> Seq<char> {
    "https://github.com/login/oauth/authorize?client_id="@ + client_id + "&state="@ + state
}

/// The token-exchange URL for an access code.
pub open spec fn spec_access_token_url(
    client_id: Seq<char>,
    client_secret: Seq<char>,
    access_code: Seq<char>,
) -> Seq<char> {
    "https://github.com/login/oauth/access_token?client_id="@ + client_id + "&client_secret="@
        + client_secret + "&code="@ + access_code
}

/// The token-check endpoint of an application.
pub open spec fn spec_user_info_url(client_id: Seq<char>) -> Seq<char> {
    "https://api.github.com/applications/"@ + client_id + "/token"@
}

/// The JSON body of a token check.
pub open spec fn spec_token_request_body(access_token: Seq<char>) -> Seq<char> {
    "{\"access_token\":\""@ + access_token + "\"}"@
}

impl GithubAuthService {
    pub fn new(client_id: &str, client_secret: &str) -> (s: GithubAuthService)
        ensures
            s@.client_id == client_id@,
            s@.client_secret == client_secret@,
    {
        GithubAuthService {
            client_id: client_id.to_owned(),
            client_secret: client_secret.to_owned(),
        }
    }

    /// Builds the login link for one authentication attempt.
    pub fn login_url(&self, state: &str) -> (r: String)
        ensures
            r@ == spec_login_url(self@.client_id, state@),
    {
        let mut s = "https://github.com/login/oauth/authorize?client_id=".to_owned();
        s.append(self.client_id.as_str());
        s.append("&state=");
        s.append(state);
        proof {
            assert(s@ =~= spec_login_url(self@.client_id, state@));
        }
        s
    }

    /// Builds the token-exchange URL for an access code.
    pub fn access_token_url(&self, access_code: &str) -> (r: String)
        ensures
            r@ == spec_access_token_url(self@.client_id, self@.client_secret, access_code@),
    {
        let mut s = "https://github.com/login/oauth/access_token?client_id=".to_owned();
        s.append(self.client_id.as_str());
        s.append("&client_secret=");
        s.append(self.client_secret.as_str());
        s.append("&code=");
        s.append(access_code);
        proof {
            assert(s@ =~= spec_access_token_url(
                self@.client_id,
                self@.client_secret,
                access_code@,
            ));
        }
        s
    }

    /// Builds the token-check endpoint URL.
    pub fn user_info_url(&self) -> (r: String)
        ensures
            r@ == spec_user_info_url(self@.client_id),
    {
        let mut s = "https://api.github.com/applications/".to_owned();
        s.append(self.client_id.as_str());
        s.append("/token");
        proof {
            assert(s@ =~= spec_user_info_url(self@.client_id));
        }
        s
    }
}

/// Builds the JSON body of a token check.
pub fn token_request_body(access_token: &str) -> (r: String)
    ensures
        r@ == spec_token_request_body(access_token@),
{
    let mut s = "{\"access_token\":\"".to_owned();
    s.append(access_token);
    s.append("\"}");
    proof {
        assert(s@ =~= spec_token_request_body(access_token@));
    }
    s
}

/// The token pattern anchored at position `i` of the provider's reply:
/// `access_token=` followed by at least one word character.
pub open spec fn access_token_at(t: Seq<char>, i: int) -> Option<Seq<char>> {
    if !match_at(t, "access_token="@, i) {
        None
    } else {
        let s = i + "access_token="@.len();
        let e = word_run_end(t, s);
        if e == s {
            None
        } else {
            Some(t.subrange(s, e))
        }
    }
}

/// The token at the first position of the reply, scanning from index `i`,
/// where the whole pattern matches.
pub open spec fn access_token_from(t: Seq<char>, i: int) -> Option<Seq<char>>
    decreases t.len() - i,
{
    if i >= t.len() {
        None
    } else {
        match access_token_at(t, i) {
            Some(u) => Some(u),
            None => access_token_from(t, i + 1),
        }
    }
}

/// The token in the provider's `access_token=...` reply.
pub open spec fn access_token_capture(t: Seq<char>) -> Option<Seq<char>> {
    access_token_from(t, 0)
}

/// Checks for the token pattern anchored at position `i`, yielding the
/// token's bounds.
fn access_token_at_check(body: &str, i: usize) -> (r: Option<(usize, usize)>)
    requires
        body@.len() <= usize::MAX as int,
        i as int <= body@.len(),
    ensures
        match r {
            Some(b) => access_token_at(body@, i as int) == Some(
                body@.subrange(b.0 as int, b.1 as int),
            ) && b.0 <= b.1 && b.1 as int <= body@.len(),
            None => access_token_at(body@, i as int) is None,
        },
{
    proof {
        reveal_strlit("access_token=");
    }
    let n = body.unicode_len();
    if n - i < 13 || !check_match_at(body, "access_token=", i) {
        return None;
    }
    let s = i + 13;
    let e = scan_word_chars(body, s);
    if e == s {
        return None;
    }
    Some((s, e))
}

/// Extracts the access token from the provider's token-exchange reply.
pub fn extract_access_token(body: &str) -> (r: Option<String>)
    ensures
        match r {
            Some(u) => access_token_capture(body@) == Some(u@),
            None => access_token_capture(body@) is None,
        },
{
    let n = body.unicode_len();
    let mut i: usize = 0;
    while i < n
        invariant
            n == body@.len(),
            i <= n,
            access_token_from(body@, 0) == access_token_from(body@, i as int),
        decreases n - i,
    {
        match access_token_at_check(body, i) {
            Some(bounds) => {
                return Some(body.substring_char(bounds.0, bounds.1).to_owned());
            },
            None => {},
        }
        i += 1;
    }
    None
}

/// Index of the last space of `t`, or `-1` when it has none.
pub open spec fn last_space_index(t: Seq<char>) -> int
    decreases t.len(),
{
    if t.len() == 0 {
        -1
    } else if t.last() == ' ' {
        t.len() - 1
    } else {
        last_space_index(t.drop_last())
    }
}

/// The bearer token of an authorization header value: what stands after
/// the last space, or the whole value when it has no space.
pub open spec fn bearer_of(t: Seq<char>) -> Seq<char> {
    t.subrange(last_space_index(t) + 1, t.len() as int)
}

proof fn lemma_last_space_at(t: Seq<char>, j: int)
    requires
        0 <= j <= t.len(),
        forall|k: int| j <= k < t.len() ==> t[k] != ' ',
        j > 0 ==> t[j - 1] == ' ',
    ensures
        last_space_index(t) == j - 1,
    decreases t.len(),
{
    if t.len() == 0 {
    } else if t.last() == ' ' {
        assert(j == t.len());
    } else {
        assert(j < t.len());
        assert(forall|k: int| j <= k < t.drop_last().len() ==> t.drop_last()[k] != ' ');
        lemma_last_space_at(t.drop_last(), j);
    }
}

/// Takes the bearer token out of an authorization header value.
pub fn bearer_from_header(value: &str) -> (r: String)
    ensures
        r@ == bearer_of(value@),
{
    let n = value.unicode_len();
    let mut j: usize = n;
    loop
        invariant
            n == value@.len(),
            j <= n,
            forall|k: int| j <= k < n ==> value@[k] != ' ',
        ensures
            j <= n,
            forall|k: int| j <= k < n ==> value@[k] != ' ',
            j > 0 ==> value@[j - 1] == ' ',
        decreases j,
    {
        if j == 0 {
            break;
        }
        if value.get_char(j - 1) == ' ' {
            break;
        }
        j -= 1;
    }
    proof {
        lemma_last_space_at(value@, j as int);
    }
    value.substring_char(j, n).to_owned()
}

/// What a successful token check reports about the user.
#[derive(Debug)]
pub struct AuthInfoJson {
    pub id: i64,
    pub user: UserInfoJson,
}

/// The user record inside a token-check report.
#[derive(Debug)]
pub struct UserInfoJson {
    pub id: i64,
    pub login: String,
}

/// Shapes a token-check report into the user-info response.
pub fn user_from_auth_info(json: AuthInfoJson) -> (r: UserInfoResponse)
    ensures
        r.id == json.user.id,
        r.username@ == json.user.login@,
{
    UserInfoResponse { id: json.user.id, username: json.user.login }
}

} // verus!
