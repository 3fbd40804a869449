//! The transport, without the wire: what is asked of the API and what comes
//! back, as plain values. This library sends nothing itself. It says which
//! requests are to be sent and with which credentials, and it reads the
//! responses that whoever sent them hands back.

use vstd::prelude::*;
use crate::error::{APIError, APIErrorView, InviteifyError, InviteifyErrorView, recorded_body};
use crate::text::{decimal, decimal_string};

verus! {

/// What every request identifies itself as.
pub const APP_USER_AGENT: &'static str = "inviteify/0.1.0";

/// The site that authorization links lead to.
pub const DOMAIN: &'static str = "https://discord.com";

/// The root of the API; every request goes below it.
pub const API_BASE: &'static str = "https://discord.com/api/v10";

/// The scheme of an encrypted transport.
pub const HTTPS: &'static str = "https://";

/// The permission to create invites.
pub const PERM_CREATE_INVITE: u64 = 0x1;

/// The permission to manage channels.
pub const PERM_MANAGE_CHANNELS: u64 = 0x10;

/// The permission bitmask of a client that was given none: the bits that the
/// two flags have in common. They have none, so this is 0 and asks for nothing.
/// A bot that is to create invites needs `Client::with_permissions`.
pub const DEFAULT_PERMISSIONS: u64 = PERM_CREATE_INVITE & PERM_MANAGE_CHANNELS;

/// A user of the platform.
#[derive(Debug)]
pub struct User {
    pub id: String,
}

impl View for User {
    type V = Seq<char>;

    open spec fn view(&self) -> Seq<char> {
        self.id@
    }
}

/// An invite to a channel, as the API reports it. The library reads invites and
/// never changes one.
#[derive(Debug)]
pub struct ChannelInvite {
    /// The code that the platform gave the invite.
    pub code: String,
    /// When the invite expires, in nanoseconds since the Unix epoch; `None` for
    /// one that never does.
    pub expires_at: Option<i128>,
    /// Who made the invite.
    pub inviter: User,
}

/// A `ChannelInvite` as mathematics.
pub struct ChannelInviteView {
    pub code: Seq<char>,
    pub expires_at: Option<int>,
    pub inviter: Seq<char>,
}

impl View for ChannelInvite {
    type V = ChannelInviteView;

    open spec fn view(&self) -> ChannelInviteView {
        ChannelInviteView {
            code: self.code@,
            expires_at: match self.expires_at {
                Some(t) => Some(t as int),
                None => None,
            },
            inviter: self.inviter@,
        }
    }
}

/// The invites of a list, each as mathematics, in the order of the list.
pub open spec fn invite_views(invites: Seq<ChannelInvite>) -> Seq<ChannelInviteView> {
    Seq::new(invites.len(), |i: int| invites[i]@)
}

/// What is asked of a new invite.
#[derive(Clone, Copy, Debug)]
pub struct ChannelInviteRequest {
    /// How long the invite lasts, in seconds; 0 for one that never expires.
    pub max_age: u64,
    /// How often the invite can be used; 0 for no limit.
    pub max_uses: usize,
    /// Whether the invite grants temporary membership.
    pub temporary: bool,
    /// Whether a new invite is wanted even where a similar one exists.
    pub unique: bool,
}

impl Default for ChannelInviteRequest {
    /// An invite for one day, with no limit of uses, neither temporary nor unique.
    fn default() -> (request: Self)
        ensures
            request == (ChannelInviteRequest {
                max_age: 86400,
                max_uses: 0,
                temporary: false,
                unique: false,
            }),
    {
        ChannelInviteRequest { max_age: 86400, max_uses: 0, temporary: false, unique: false }
    }
}

/// The two methods that the library asks with: it reads, and it creates. It
/// never changes or deletes anything.
#[derive(Clone, Copy, Debug, PartialEq, Eq)]
pub enum Method {
    Get,
    Post,
}

/// A request that is to be sent, with the client's credentials, by whoever
/// drives the library.
#[derive(Debug)]
pub struct Request {
    pub method: Method,
    /// The full address.
    pub url: String,
    /// What is to be sent as the JSON body, if anything.
    pub body: Option<ChannelInviteRequest>,
}

/// A `Request` as mathematics.
pub struct RequestView {
    pub method: Method,
    pub url: Seq<char>,
    pub body: Option<ChannelInviteRequest>,
}

impl View for Request {
    type V = RequestView;

    open spec fn view(&self) -> RequestView {
        RequestView { method: self.method, url: self.url@, body: self.body }
    }
}

/// Whether a status code lies in the success class, 200 to 299.
pub open spec fn status_is_success(status: u16) -> bool {
    200 <= status < 300
}

/// Tells whether `status` lies in the success class.
pub fn is_success(status: u16) -> (ok: bool)
    ensures
        ok == status_is_success(status),
{
    200 <= status && status < 300
}

/// A status in the success class: the body under it is to be decoded as JSON.
/// Only `answered` makes one, so there is none for a status of another class.
#[derive(Debug)]
pub struct Accepted {
    status: u16,
}

/// A status outside the success class: the body under it is to be read as
/// text. Only `answered` makes one, so there is none for a success status.
#[derive(Debug)]
pub struct Refused {
    status: u16,
}

impl View for Accepted {
    type V = u16;

    /// The status that the value stands for. It lies in the success class.
    closed spec fn view(&self) -> u16 {
        if status_is_success(self.status) {
            self.status
        } else {
            200
        }
    }
}

impl View for Refused {
    type V = u16;

    /// The status that the value stands for. It lies outside the success class.
    closed spec fn view(&self) -> u16 {
        if status_is_success(self.status) {
            0
        } else {
            self.status
        }
    }
}

impl Accepted {
    #[verifier::type_invariant]
    spec fn holds_a_success(&self) -> bool {
        status_is_success(self.status)
    }

    /// The status of an accepted response lies in the success class.
    pub proof fn is_success(self)
        ensures
            status_is_success(self@),
    {
    }

    /// The status code, which lies in the success class.
    pub fn status(&self) -> (status: u16)
        ensures
            status == self@,
            status_is_success(status),
    {
        proof {
            use_type_invariant(self);
        }
        self.status
    }
}

impl Refused {
    #[verifier::type_invariant]
    spec fn holds_no_success(&self) -> bool {
        !status_is_success(self.status)
    }

    /// The status of a refused response lies outside the success class.
    pub proof fn is_no_success(self)
        ensures
            !status_is_success(self@),
    {
    }

    /// The status code, which lies outside the success class.
    pub fn status(&self) -> (status: u16)
        ensures
            status == self@,
            !status_is_success(status),
    {
        proof {
            use_type_invariant(self);
        }
        self.status
    }
}

/// A response whose status is known and whose body is still to be read. A body
/// is read once, and the status says how.
#[derive(Debug)]
pub enum Unread {
    /// Decode the body as JSON and make a `Response::Decoded` of it.
    Accepted(Accepted),
    /// Read the body as text and make a `Response::Refused` of it.
    Refused(Refused),
}

/// Takes the status of a response and says how its body is to be read: as
/// JSON under a status of the success class, as text under any other.
pub fn answered(status: u16) -> (unread: Unread)
    ensures
        match unread {
            Unread::Accepted(accepted) => status_is_success(status) && accepted@ == status,
            Unread::Refused(refused) => !status_is_success(status) && refused@ == status,
        },
{
    if is_success(status) {
        Unread::Accepted(Accepted { status })
    } else {
        Unread::Refused(Refused { status })
    }
}

/// A response of the API, read.
#[derive(Debug)]
pub enum Response<T> {
    /// A response with a success status, and its body decoded from JSON.
    Decoded(Accepted, T),
    /// A response with any other status, and its body as text, or `None` where
    /// the body could not be read as text.
    Refused(Refused, Option<String>),
}

impl<T> Response<T> {
    /// The status code of the response.
    pub open spec fn status(&self) -> u16 {
        match self {
            Response::Decoded(accepted, _) => accepted@,
            Response::Refused(refused, _) => refused@,
        }
    }

    /// A response is decoded exactly where its status lies in the success
    /// class.
    pub proof fn decoded_under_success(self)
        ensures
            self is Decoded <==> status_is_success(self.status()),
    {
        match self {
            Response::Decoded(accepted, _) => accepted.is_success(),
            Response::Refused(refused, _) => refused.is_no_success(),
        }
    }
}

/// What the response to a request for `url` yields: its decoded body where it
/// has one, and otherwise an API failure that carries `url`, the status, and
/// the body text, with `UNREADABLE_BODY` where no text was read.
pub open spec fn decoded<T>(url: Seq<char>, response: Response<T>) -> Result<T, InviteifyErrorView> {
    match response {
        Response::Decoded(_, value) => Ok(value),
        Response::Refused(refused, text) => Err(
            InviteifyErrorView::APIError(
                APIErrorView { url, status: refused@, body: recorded_body(text) },
            ),
        ),
    }
}

/// What an exchange for `url` yields: the transport's failure where there was
/// one, and what the response yields otherwise.
pub open spec fn received<T>(url: Seq<char>, outcome: Result<Response<T>, reqwest::Error>) -> Result<
    T,
    InviteifyErrorView,
> {
    match outcome {
        Ok(response) => decoded(url, response),
        Err(e) => Err(InviteifyErrorView::ReqwestError(e)),
    }
}

/// Whether `result` is `expected`: the same value, or an error that reads the same.
pub open spec fn yields<T>(result: Result<T, InviteifyError>, expected: Result<T, InviteifyErrorView>) -> bool {
    match expected {
        Ok(value) => result == Ok::<T, InviteifyError>(value),
        Err(failure) => result matches Err(e) && e@ == failure,
    }
}

/// Whether `result` is no API failure, or one with a status outside the
/// success class.
pub open spec fn fails_outside_success<T>(result: Result<T, InviteifyError>) -> bool {
    result matches Err(InviteifyError::APIError(e)) ==> !status_is_success(e.status)
}

/// Reads the response to a request for `url`: its decoded body under a success
/// status, and under any other status an `APIError` with `url`, the status and
/// the body. So the result is an `APIError` exactly where the status lies
/// outside the success class.
pub fn response_json<T>(url: String, response: Response<T>) -> (result: Result<T, InviteifyError>)
    ensures
        yields(result, decoded(url@, response)),
        result is Ok <==> status_is_success(response.status()),
        result matches Err(e) ==> e is APIError,
        fails_outside_success(result),
{
    proof {
        response.decoded_under_success();
    }
    match response {
        Response::Decoded(_, value) => Ok(value),
        Response::Refused(refused, text) => Err(
            InviteifyError::APIError(APIError::from_reqwest(url, refused.status(), text)),
        ),
    }
}

/// Reads the outcome of an exchange for `url`: a failure of the transport is
/// handed on as it is, a response is read by `response_json`.
pub fn receive<T>(url: String, outcome: Result<Response<T>, reqwest::Error>) -> (result: Result<
    T,
    InviteifyError,
>)
    ensures
        yields(result, received(url@, outcome)),
        fails_outside_success(result),
{
    match outcome {
        Ok(response) => response_json(url, response),
        Err(e) => Err(InviteifyError::ReqwestError(e)),
    }
}

/// Whether an address asks for an encrypted transport.
pub open spec fn is_https(url: Seq<char>) -> bool {
    HTTPS@.is_prefix_of(url)
}

/// The address of `path` below the API root.
pub open spec fn api_url(path: Seq<char>) -> Seq<char> {
    API_BASE@ + path
}

/// Every address below the API root asks for an encrypted transport.
pub proof fn api_url_is_https(path: Seq<char>)
    ensures
        is_https(api_url(path)),
{
    reveal_strlit("https://");
    reveal_strlit("https://discord.com/api/v10");
}

/// The authorization link of a client for a server.
pub open spec fn authorize_link_text(client_id: Seq<char>, permissions: u64, server_id: Seq<char>) -> Seq<
    char,
> {
    DOMAIN@ + "/oauth2/authorize?client_id="@ + client_id + "&scope=bot&permission="@ + decimal(
        permissions as nat,
    ) + "&guild_id="@ + server_id
}

/// The credentials of a bot, and what it may ask for.
#[derive(Debug)]
pub struct Client {
    /// The application's client id.
    pub client_id: String,
    /// The value of the `Authorization` header of every request.
    pub authorization: String,
    /// The permission bitmask that authorization links ask for.
    pub permissions: u64,
}

impl Client {
    /// A client for the application `client_id` that authenticates as a bot with
    /// `auth_token`. Its permission bitmask is `DEFAULT_PERMISSIONS`. Nothing of
    /// the token is checked: whether it can stand in a header is for whoever
    /// builds the transport to find out.
    pub fn new(client_id: &str, auth_token: &str) -> (client: Client)
        ensures
            client.client_id@ == client_id@,
            client.authorization@ == "Bot "@ + auth_token@,
            client.permissions == DEFAULT_PERMISSIONS,
            client.permissions == 0,
    {
        assert(0x1u64 & 0x10u64 == 0) by (bit_vector);
        Client {
            client_id: String::from_str(client_id),
            authorization: String::from_str("Bot ").concat(auth_token),
            permissions: DEFAULT_PERMISSIONS,
        }
    }

    /// The same client, asking for the permissions `permissions`.
    pub fn with_permissions(self, permissions: u64) -> (client: Client)
        ensures
            client.client_id == self.client_id,
            client.authorization == self.authorization,
            client.permissions == permissions,
    {
        Client { client_id: self.client_id, authorization: self.authorization, permissions }
    }

    /// The link on which the owner of the server `server_id` authorizes the bot.
    /// Nothing is sent, and nothing of `server_id` is checked or escaped.
    pub fn authorize_link(&self, server_id: &str) -> (link: String)
        ensures
            link@ == authorize_link_text(self.client_id@, self.permissions, server_id@),
    {
        let permissions = decimal_string(self.permissions);
        String::from_str(DOMAIN).concat("/oauth2/authorize?client_id=").concat(
            self.client_id.as_str(),
        ).concat("&scope=bot&permission=").concat(permissions.as_str()).concat("&guild_id=").concat(
            server_id,
        )
    }

    /// A `GET` of `path` below the API root.
    pub fn get(&self, path: &str) -> (request: Request)
        ensures
            request@ == (RequestView { method: Method::Get, url: api_url(path@), body: None }),
            is_https(request.url@),
    {
        proof {
            api_url_is_https(path@);
        }
        Request { method: Method::Get, url: String::from_str(API_BASE).concat(path), body: None }
    }

    /// A `POST` to `path` below the API root, with `body` as its JSON body.
    pub fn post(&self, path: &str, body: ChannelInviteRequest) -> (request: Request)
        ensures
            request@ == (RequestView { method: Method::Post, url: api_url(path@), body: Some(body) }),
            is_https(request.url@),
    {
        proof {
            api_url_is_https(path@);
        }
        Request {
            method: Method::Post,
            url: String::from_str(API_BASE).concat(path),
            body: Some(body),
        }
    }
}

} // verus!
