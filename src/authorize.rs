use crate::credentials::Credentials;
use crate::entities::AccessToken;
use crate::error::Error;
use crate::http::{
    check_status, is_success, pair, pairs_view, status_message, BasicAuth, HttpRequest, Method,
    Pair, PairView,
};
use vstd::prelude::*;
use vstd::string::*;

verus! {

pub const IDENTITY_SERVER_URL: &'static str = "https://api.sbanken.no/identityserver/connect/token";

pub const USER_AGENT: &'static str = "sbanken-cli/0.3.0";

pub const GRANT_BODY: &'static str = "grant_type=client_credentials";

/// The application/x-www-form-urlencoded form of the UTF-8 bytes of a text.
pub uninterp spec fn form_urlencoded_of(s: Seq<char>) -> Seq<char>;

/// Relies on `url::form_urlencoded::byte_serialize`: the form-urlencoded text
/// of the bytes of `s`, which depends on those bytes alone.
#[verifier::external_body]
fn form_urlencode(s: &str) -> (r: String)
    ensures
        r@ == form_urlencoded_of(s@),
{
    url::form_urlencoded::byte_serialize(s.as_bytes()).collect()
}

/// The value of the Authorization header that carries `token`.
pub open spec fn bearer(token: Seq<char>) -> Seq<char> {
    "Bearer "@ + token
}

/// The headers of an authenticated request: user agent, the JSON media type
/// (`Accept` for GET, `Content-Type` for POST), the bearer token and the
/// customer id.
pub open spec fn request_headers(method: Method, token: Seq<char>, customer_id: Seq<char>) -> Seq<
    PairView,
> {
    seq![
        ("User-Agent"@, USER_AGENT@),
        if method == Method::Get {
            ("Accept"@, "application/json"@)
        } else {
            ("Content-Type"@, "application/json"@)
        },
        ("Authorization"@, bearer(token)),
        ("customerId"@, customer_id),
    ]
}

/// The headers of the token request.
pub open spec fn token_headers() -> Seq<PairView> {
    seq![
        ("User-Agent"@, USER_AGENT@),
        ("Accept"@, "application/json"@),
        ("Content-Type"@, "application/x-www-form-urlencoded"@),
    ]
}

/// `r` is the token request for `c`: one POST to the identity server, with
/// Basic authentication made of the form-urlencoded client id and secret,
/// and the client-credentials grant as its body.
pub open spec fn is_token_request(c: Credentials, r: HttpRequest) -> bool {
    &&& r.method == Method::Post
    &&& r.url@ == IDENTITY_SERVER_URL@
    &&& r.headers_view() == token_headers()
    &&& r.query@.len() == 0
    &&& r.basic_auth matches Some(b) && b.username@ == form_urlencoded_of(c.client_id@)
        && b.password@ == form_urlencoded_of(c.secret@)
    &&& r.body_view() == Some(GRANT_BODY@)
}

/// `r` is the outcome of the identity server's answer: a non-success status
/// is a transport error whatever the body holds; else the decoded token, or
/// a decode error with the reason the body did not decode.
pub open spec fn token_outcome(
    status: u16,
    decoded: Result<AccessToken, String>,
    r: Result<AccessToken, Error>,
) -> bool {
    if !is_success(status) {
        r matches Err(Error::Transport(m)) && m@ == status_message(status)
    } else {
        match decoded {
            Ok(t) => r == Ok::<AccessToken, Error>(t),
            Err(d) => r matches Err(Error::Decode(m)) && m@ == d@,
        }
    }
}

/// For any credentials, the token exchange is a single Basic-authenticated
/// POST of the client-credentials grant, and a success answer whose body
/// decodes yields exactly the decoded token.
pub proof fn lemma_token_exchange(
    c: Credentials,
    request: HttpRequest,
    status: u16,
    token: AccessToken,
    r: Result<AccessToken, Error>,
)
    requires
        is_token_request(c, request),
        is_success(status),
        token_outcome(status, Ok(token), r),
    ensures
        request.method == Method::Post,
        request.basic_auth matches Some(b) && b.username@ == form_urlencoded_of(c.client_id@)
            && b.password@ == form_urlencoded_of(c.secret@),
        request.body_view() == Some("grant_type=client_credentials"@),
        r == Ok::<AccessToken, Error>(token),
{
}

/// Every authenticated request carries exactly one Authorization header, and
/// its value is `Bearer ` followed by the token acquired for that request.
pub proof fn lemma_authorization_is_bearer(method: Method, token: Seq<char>, customer_id: Seq<char>)
    ensures
        exists|i: int|
            0 <= i < request_headers(method, token, customer_id).len() && request_headers(
                method,
                token,
                customer_id,
            )[i] == ("Authorization"@, bearer(token)) && forall|j: int|
                0 <= j < request_headers(method, token, customer_id).len() && (#[trigger] request_headers(
                    method,
                    token,
                    customer_id,
                )[j]).0 == "Authorization"@ ==> j == i,
{
    reveal_strlit("User-Agent");
    reveal_strlit("Accept");
    reveal_strlit("Content-Type");
    reveal_strlit("Authorization");
    reveal_strlit("customerId");
    let h = request_headers(method, token, customer_id);
    assert(h[0].0.len() != "Authorization"@.len());
    assert(h[1].0.len() != "Authorization"@.len());
    assert(h[3].0.len() != "Authorization"@.len());
    assert(h[2] == ("Authorization"@, bearer(token)));
}

/// Builds authenticated requests for the holder of some credentials.
#[derive(Debug)]
pub struct Authorize<'a> {
    pub credentials: &'a Credentials,
}

impl<'a> Authorize<'a> {
    pub fn new(credentials: &'a Credentials) -> (r: Authorize<'a>)
        ensures
            r.credentials == credentials,
    {
        Authorize { credentials }
    }

    /// The request that exchanges the client credentials for a token: one POST
    /// to the identity server, with Basic authentication made of the
    /// form-urlencoded client id and secret, and the client-credentials grant.
    pub fn token_request(&self) -> (r: HttpRequest)
        ensures
            is_token_request(*self.credentials, r),
    {
        let username = form_urlencode(self.credentials.client_id.as_str());
        let password = form_urlencode(self.credentials.secret.as_str());
        let mut headers: Vec<Pair> = Vec::new();
        headers.push(pair("User-Agent", USER_AGENT));
        headers.push(pair("Accept", "application/json"));
        headers.push(pair("Content-Type", "application/x-www-form-urlencoded"));
        proof {
            assert(pairs_view(headers@) =~= token_headers());
        }
        HttpRequest {
            method: Method::Post,
            url: IDENTITY_SERVER_URL.to_owned(),
            headers,
            query: Vec::new(),
            basic_auth: Some(BasicAuth { username, password }),
            body: Some(GRANT_BODY.to_owned()),
        }
    }

    /// The token, out of the identity server's answer: its status and its
    /// body decoded, or the reason the body could not be decoded. A
    /// non-success status is a transport error whatever the body holds.
    pub fn token_from_response(status: u16, decoded: Result<AccessToken, String>) -> (r: Result<
        AccessToken,
        Error,
    >)
        ensures
            token_outcome(status, decoded, r),
    {
        match check_status(status) {
            Err(e) => Err(e),
            Ok(()) => match decoded {
                Ok(t) => Ok(t),
                Err(d) => Err(Error::Decode(d)),
            },
        }
    }

    /// The headers of an authenticated request that carries `token`.
    pub fn construct_headers(&self, method: Method, token: &str) -> (r: Vec<Pair>)
        ensures
            pairs_view(r@) == request_headers(method, token@, self.credentials.customer_id@),
    {
        let mut headers: Vec<Pair> = Vec::new();
        headers.push(pair("User-Agent", USER_AGENT));
        match method {
            Method::Get => headers.push(pair("Accept", "application/json")),
            Method::Post => headers.push(pair("Content-Type", "application/json")),
        }
        let value = String::from_str("Bearer ").concat(token);
        headers.push(Pair { name: String::from_str("Authorization"), value });
        headers.push(pair("customerId", self.credentials.customer_id.as_str()));
        proof {
            assert(pairs_view(headers@) =~= request_headers(
                method,
                token@,
                self.credentials.customer_id@,
            ));
        }
        headers
    }

    /// A GET of `url` that carries `token`, with the query parameters given.
    pub fn get_request(&self, token: &AccessToken, url: String, params: Option<Vec<Pair>>) -> (r:
        HttpRequest)
        ensures
            r.method == Method::Get,
            r.url == url,
            r.headers_view() == request_headers(
                Method::Get,
                token.access_token@,
                self.credentials.customer_id@,
            ),
            match params {
                Some(p) => r.query == p,
                None => r.query@.len() == 0,
            },
            r.basic_auth is None,
            r.body is None,
    {
        let headers = self.construct_headers(Method::Get, token.access_token.as_str());
        let query = match params {
            Some(p) => p,
            None => Vec::new(),
        };
        HttpRequest { method: Method::Get, url, headers, query, basic_auth: None, body: None }
    }

    /// A POST of `body`, a JSON document, to `url`, that carries `token`.
    pub fn post_request(&self, token: &AccessToken, url: String, body: String) -> (r: HttpRequest)
        ensures
            r.method == Method::Post,
            r.url == url,
            r.headers_view() == request_headers(
                Method::Post,
                token.access_token@,
                self.credentials.customer_id@,
            ),
            r.query@.len() == 0,
            r.basic_auth is None,
            r.body == Some(body),
    {
        let headers = self.construct_headers(Method::Post, token.access_token.as_str());
        HttpRequest {
            method: Method::Post,
            url,
            headers,
            query: Vec::new(),
            basic_auth: None,
            body: Some(body),
        }
    }
}

} // verus!
