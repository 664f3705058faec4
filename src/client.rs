//! The license-authentication client: its configuration, the options of its
//! two operations, and the decision, for each operation, between a local
//! failure reply and a request to post.

use vstd::prelude::*;
use vstd::string::StrSliceExecFns;
use vstd::string::StringExecFns;

use crate::http::{build_http_client, default_http_client};
use crate::json::{insert_string, new_object, no_fields, object_fields};

verus! {

/// Seconds after which a request to the service times out.
pub const REQUEST_TIMEOUT_SECS: u64 = 10;

/// Reply to an authentication attempt that names neither a license nor a
/// complete username and password pair.
pub const MISSING_CREDENTIALS: &'static str = "Either license key OR (username AND password) must be provided";

/// Reply to a registration with an empty license.
pub const MISSING_LICENSE: &'static str = "license is required";

/// Reply to a registration with an empty username.
pub const MISSING_USERNAME: &'static str = "username is required";

/// Reply to a registration with an empty password.
pub const MISSING_PASSWORD: &'static str = "password is required";

/// The outcome of an operation, as the service or local validation gave it.
#[derive(Debug, Clone)]
pub struct AuthResponse {
    pub success: bool,
    pub message: String,
    /// The service's structured payload, when it sent one.
    pub data: Option<serde_json::Value>,
}

/// Credentials for `authenticate`: a license, or a username and password.
#[derive(Debug, Clone, Default)]
pub struct AuthenticateOptions {
    pub license: Option<String>,
    pub username: Option<String>,
    pub password: Option<String>,
    pub hwid: Option<String>,
}

/// Credentials for `register`: all three are required to be non-empty.
#[derive(Debug, Clone)]
pub struct RegisterOptions {
    pub license: String,
    pub username: String,
    pub password: String,
}

/// A JSON object to post to a URL.
#[derive(Debug)]
pub struct PostRequest {
    pub url: String,
    pub payload: serde_json::Map<String, serde_json::Value>,
}

/// What an operation does next: reply at once, without any network call, or
/// post a request and reply with what the service answers.
#[derive(Debug)]
pub enum Prepared {
    Local(AuthResponse),
    Post(PostRequest),
}

/// A client of the service at one base URL, for one application.
pub struct LicenseAuthClient {
    host: String,
    app_id: String,
    client: Option<reqwest::Client>,
}

/// The base URL with one trailing `/` removed, if it ends in one.
pub open spec fn normalized_host(host: Seq<char>) -> Seq<char> {
    if host.len() > 0 && host.last() == '/' {
        host.drop_last()
    } else {
        host
    }
}

fn normalize_host(host: &str) -> (r: String)
    ensures
        r@ == normalized_host(host@),
{
    let n = host.unicode_len();
    if n > 0 && host.get_char(n - 1) == '/' {
        let trimmed = host.substring_char(0, n - 1);
        String::from_str(trimmed)
    } else {
        String::from_str(host)
    }
}

/// A reply made locally, without the service: a failure with this message
/// and no data.
pub open spec fn is_local_failure(r: AuthResponse, message: Seq<char>) -> bool {
    !r.success && r.message@ == message && r.data is None
}

/// `authenticate` goes to the network only with a license, or with both a
/// username and a password.
pub open spec fn credentials_missing(o: AuthenticateOptions) -> bool {
    o.license is None && (o.username is None || o.password is None)
}

/// `fields` with `key` bound to the string `value`, when there is one.
pub open spec fn with_optional(
    fields: Map<Seq<char>, Option<Seq<char>>>,
    key: Seq<char>,
    value: Option<String>,
) -> Map<Seq<char>, Option<Seq<char>>> {
    match value {
        Some(v) => fields.insert(key, Some(v@)),
        None => fields,
    }
}

/// The object posted by `authenticate`: the application identifier, and
/// each option that is present, under its own name.
pub open spec fn authenticate_payload(app_id: Seq<char>, o: AuthenticateOptions) -> Map<
    Seq<char>,
    Option<Seq<char>>,
> {
    let base = no_fields().insert("app_id"@, Some(app_id));
    with_optional(
        with_optional(
            with_optional(with_optional(base, "license"@, o.license), "username"@, o.username),
            "password"@,
            o.password,
        ),
        "hwid"@,
        o.hwid,
    )
}

/// The object posted by `register`: the application identifier and all
/// three credentials.
pub open spec fn register_payload(app_id: Seq<char>, o: RegisterOptions) -> Map<
    Seq<char>,
    Option<Seq<char>>,
> {
    no_fields().insert("app_id"@, Some(app_id)).insert("license"@, Some(o.license@)).insert(
        "username"@,
        Some(o.username@),
    ).insert("password"@, Some(o.password@))
}

/// The message of the first empty field of a registration, in the order
/// license, username, password; `None` when none is empty.
pub open spec fn register_rejection(o: RegisterOptions) -> Option<Seq<char>> {
    if o.license@.len() == 0 {
        Some(MISSING_LICENSE@)
    } else if o.username@.len() == 0 {
        Some(MISSING_USERNAME@)
    } else if o.password@.len() == 0 {
        Some(MISSING_PASSWORD@)
    } else {
        None
    }
}

/// A post of `fields` to `host` followed by `endpoint`.
pub open spec fn is_post_of(
    p: Prepared,
    host: Seq<char>,
    endpoint: Seq<char>,
    fields: Map<Seq<char>, Option<Seq<char>>>,
) -> bool {
    match p {
        Prepared::Post(req) => req.url@ == host + endpoint && object_fields(req.payload) == fields,
        Prepared::Local(_) => false,
    }
}

/// A local failure reply with this message.
pub open spec fn is_local_reply(p: Prepared, message: Seq<char>) -> bool {
    match p {
        Prepared::Local(r) => is_local_failure(r, message),
        Prepared::Post(_) => false,
    }
}

fn local_failure(message: &str) -> (r: AuthResponse)
    ensures
        is_local_failure(r, message@),
{
    AuthResponse { success: false, message: String::from_str(message), data: None }
}

fn insert_optional(
    payload: &mut serde_json::Map<String, serde_json::Value>,
    key: &str,
    value: Option<String>,
)
    ensures
        object_fields(*final(payload)) == with_optional(object_fields(*old(payload)), key@, value),
{
    if let Some(v) = value {
        insert_string(payload, String::from_str(key), v);
    }
}

impl View for LicenseAuthClient {
    /// The effective base URL and the application identifier.
    type V = (Seq<char>, Seq<char>);

    closed spec fn view(&self) -> (Seq<char>, Seq<char>) {
        (self.host@, self.app_id@)
    }
}

impl LicenseAuthClient {
    /// A client of the service at `host`, for the application `app_id`. One
    /// trailing `/` of `host` is dropped. Construction never fails: the HTTP
    /// client is built with a ten-second request timeout, or, where that
    /// fails, with reqwest's default settings, or is left out where both fail.
    pub fn new(host: &str, app_id: &str) -> (r: Self)
        ensures
            r@.0 == normalized_host(host@),
            r@.1 == app_id@,
    {
        let client = match build_http_client(REQUEST_TIMEOUT_SECS) {
            Some(c) => Some(c),
            None => default_http_client(),
        };
        LicenseAuthClient { host: normalize_host(host), app_id: String::from_str(app_id), client }
    }

    /// A post of `payload` to `endpoint` under the base URL, the two joined
    /// as they stand.
    fn post_request(
        &self,
        endpoint: &str,
        payload: serde_json::Map<String, serde_json::Value>,
    ) -> (r: PostRequest)
        ensures
            r.url@ == self@.0 + endpoint@,
            r.payload == payload,
    {
        let mut url = self.host.clone();
        url.append(endpoint);
        PostRequest { url, payload }
    }

    /// What `authenticate` does with `opts`: a local failure when neither a
    /// license nor both a username and a password are given; otherwise a
    /// post to `/auth` of the application identifier and the options given.
    pub fn prepare_authenticate(&self, opts: AuthenticateOptions) -> (r: Prepared)
        ensures
            credentials_missing(opts) ==> is_local_reply(r, MISSING_CREDENTIALS@),
            !credentials_missing(opts) ==> is_post_of(
                r,
                self@.0,
                "/auth"@,
                authenticate_payload(self@.1, opts),
            ),
    {
        if opts.license.is_none() && (opts.username.is_none() || opts.password.is_none()) {
            return Prepared::Local(local_failure(MISSING_CREDENTIALS));
        }
        let mut payload = new_object();
        insert_string(&mut payload, String::from_str("app_id"), self.app_id.clone());
        insert_optional(&mut payload, "license", opts.license);
        insert_optional(&mut payload, "username", opts.username);
        insert_optional(&mut payload, "password", opts.password);
        insert_optional(&mut payload, "hwid", opts.hwid);
        Prepared::Post(self.post_request("/auth", payload))
    }

    /// What `register` does with `opts`: a local failure naming the first
    /// empty field (license, then username, then password); otherwise a post
    /// to `/register` of the application identifier and the three fields.
    pub fn prepare_register(&self, opts: RegisterOptions) -> (r: Prepared)
        ensures
            register_rejection(opts) matches Some(m) ==> is_local_reply(r, m),
            register_rejection(opts) is None ==> is_post_of(
                r,
                self@.0,
                "/register"@,
                register_payload(self@.1, opts),
            ),
    {
        if opts.license.as_str().is_empty() {
            return Prepared::Local(local_failure(MISSING_LICENSE));
        }
        if opts.username.as_str().is_empty() {
            return Prepared::Local(local_failure(MISSING_USERNAME));
        }
        if opts.password.as_str().is_empty() {
            return Prepared::Local(local_failure(MISSING_PASSWORD));
        }
        let mut payload = new_object();
        insert_string(&mut payload, String::from_str("app_id"), self.app_id.clone());
        insert_string(&mut payload, String::from_str("license"), opts.license);
        insert_string(&mut payload, String::from_str("username"), opts.username);
        insert_string(&mut payload, String::from_str("password"), opts.password);
        Prepared::Post(self.post_request("/register", payload))
    }

    /// The effective base URL.
    pub fn host(&self) -> (r: &str)
        ensures
            r@ == self@.0,
    {
        self.host.as_str()
    }

    /// The application identifier sent with every request.
    pub fn app_id(&self) -> (r: &str)
        ensures
            r@ == self@.1,
    {
        self.app_id.as_str()
    }

    /// The HTTP client that requests are sent with; `None` when no client
    /// could be built, in which case no request can be sent.
    pub fn http_client(&self) -> Option<&reqwest::Client> {
        self.client.as_ref()
    }
}

} // verus!
