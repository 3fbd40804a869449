//! The client: who the bot is, and which invite of a channel it hands out.
//!
//! Nothing here waits for the network. An operation that needs the API returns
//! the request to send; whoever drives the client sends it and hands back what
//! came of it, and the client says what is next. `Step` is that dialogue for
//! `check_and_generate_invite`: identify (unless the identity is known), list
//! the channel's invites, and create one only where none of the list serves.
//!
//! Two drivers that reconcile the same channel at once can both find no invite
//! that serves, and both create one. Nothing here prevents that.

use vstd::prelude::*;
use qrcode::QrCode;
use crate::clock::unix_now;
use crate::error::{InviteifyError, InviteifyErrorView};
use crate::http::{
    api_url, authorize_link_text, fails_outside_success, invite_views, receive, received,
    ChannelInvite, ChannelInviteRequest, ChannelInviteView, Client, Method, Request, RequestView,
    Response,
};
use crate::invite::{first_reusable, select_invite};
use crate::json::{as_str, get, is_object, json_member, json_string};
use crate::qr::{encode, qr_symbol, render_svg, svg_image};

verus! {

/// Where invite links lead.
pub const DISCORD_INVITE_BASE: &'static str = "https://discord.gg/";

/// Where the API tells a bot who it is.
pub const IDENTITY_PATH: &'static str = "/users/@me";

/// Where the API keeps the invites of a channel.
pub open spec fn invites_path(channel: Seq<char>) -> Seq<char> {
    "/channels/"@ + channel + "/invites"@
}

/// The request that asks who the bot is.
pub open spec fn identity_request() -> RequestView {
    RequestView { method: Method::Get, url: api_url(IDENTITY_PATH@), body: None }
}

/// The request that lists the invites of a channel.
pub open spec fn list_request(channel: Seq<char>) -> RequestView {
    RequestView { method: Method::Get, url: api_url(invites_path(channel)), body: None }
}

/// The request that creates an invite to a channel.
pub open spec fn create_request(channel: Seq<char>, request: ChannelInviteRequest) -> RequestView {
    RequestView { method: Method::Post, url: create_request_url(channel), body: Some(request) }
}

/// The address that an invite to a channel is created at.
pub open spec fn create_request_url(channel: Seq<char>) -> Seq<char> {
    api_url(invites_path(channel))
}

/// The link of the invite with the code `code`.
pub open spec fn invite_link_text(code: Seq<char>) -> Seq<char> {
    DISCORD_INVITE_BASE@ + code
}

/// The identity that a document states: the text of the member `id` of an
/// object. A document that is no object, has no such member, or has one that
/// is no string states none.
pub open spec fn identity_of(document: serde_json::Value) -> Option<Seq<char>> {
    match json_member(document, "id"@) {
        Some(id) => json_string(id),
        None => None,
    }
}

/// Decides on what was read of a document: whether it is an object, and the
/// text of its member `id` where it has one that is a string. The text is the
/// identity where the document is an object; anything else is an
/// `AuthenticationError`.
pub fn identity_from(is_object: bool, id: Option<&str>) -> (result: Result<String, InviteifyError>)
    ensures
        match id {
            Some(text) if is_object => result matches Ok(user_id) && user_id@ == text@,
            _ => result == Err::<String, InviteifyError>(InviteifyError::AuthenticationError),
        },
{
    if !is_object {
        return Err(InviteifyError::AuthenticationError);
    }
    match id {
        Some(text) => Ok(String::from_str(text)),
        None => Err(InviteifyError::AuthenticationError),
    }
}

/// Reads the identity that `document` states, and fails with
/// `AuthenticationError` where it states none.
pub fn read_identity(document: &serde_json::Value) -> (result: Result<String, InviteifyError>)
    ensures
        match identity_of(*document) {
            Some(id) => result matches Ok(user_id) && user_id@ == id,
            None => result == Err::<String, InviteifyError>(InviteifyError::AuthenticationError),
        },
{
    let id = match get(document, "id") {
        Some(member) => as_str(member),
        None => None,
    };
    identity_from(is_object(document), id)
}

/// What an exchange with the identity endpoint resolves to: the identity that
/// the decoded body states, `AuthenticationError` where it states none, and the
/// failure of the exchange where it failed, an API failure with the address of
/// the identity request.
pub open spec fn resolved(outcome: Result<Response<serde_json::Value>, reqwest::Error>) -> Result<
    Seq<char>,
    InviteifyErrorView,
> {
    match received(identity_request().url, outcome) {
        Ok(document) => match identity_of(document) {
            Some(id) => Ok(id),
            None => Err(InviteifyErrorView::AuthenticationError),
        },
        Err(failure) => Err(failure),
    }
}

/// What a client that remembers `cached` makes of an exchange with the identity
/// endpoint: what it remembers, if anything, and what the exchange resolves to
/// otherwise.
pub open spec fn resolution(
    cached: Option<Seq<char>>,
    outcome: Result<Response<serde_json::Value>, reqwest::Error>,
) -> Result<Seq<char>, InviteifyErrorView> {
    match cached {
        Some(id) => Ok(id),
        None => resolved(outcome),
    }
}

/// What the client remembers after that exchange: an identity once resolved
/// stays, and a failure leaves nothing behind.
pub open spec fn identity_after(
    cached: Option<Seq<char>>,
    outcome: Result<Response<serde_json::Value>, reqwest::Error>,
) -> Option<Seq<char>> {
    match resolution(cached, outcome) {
        Ok(id) => Some(id),
        Err(_) => None,
    }
}

/// The request that `whoami` asks to send, if it asks for one.
pub open spec fn whoami_request(cached: Option<Seq<char>>) -> Option<RequestView> {
    match cached {
        Some(_) => None,
        None => Some(identity_request()),
    }
}

/// What the invites of `channel` were found to be, each as mathematics, or
/// why they were not found: an API failure carries the address of the list
/// request.
pub open spec fn listed_reply(
    channel: Seq<char>,
    outcome: Result<Response<Vec<ChannelInvite>>, reqwest::Error>,
) -> Result<Seq<ChannelInviteView>, InviteifyErrorView> {
    match received(list_request(channel).url, outcome) {
        Ok(invites) => Ok(invite_views(invites@)),
        Err(failure) => Err(failure),
    }
}

/// What came of creating an invite to `channel`, as mathematics: an API
/// failure carries the address of the create request.
pub open spec fn created_reply(
    channel: Seq<char>,
    outcome: Result<Response<ChannelInvite>, reqwest::Error>,
) -> Result<ChannelInviteView, InviteifyErrorView> {
    match received(create_request_url(channel), outcome) {
        Ok(invite) => Ok(invite@),
        Err(failure) => Err(failure),
    }
}

/// What `whoami` answers.
#[derive(Debug)]
pub enum Whoami {
    /// The identity is known; nothing is to be sent.
    Known(String),
    /// The identity is not known yet: send this and hand the outcome to
    /// `Inviteify::identify`.
    Ask(Request),
}

/// A reconciliation that waits to learn who the bot is.
#[derive(Debug)]
pub struct AwaitIdentity {
    pub channel: String,
    pub request: ChannelInviteRequest,
}

/// A reconciliation that waits for the invites of its channel.
#[derive(Debug)]
pub struct AwaitInvites {
    pub channel: String,
    pub request: ChannelInviteRequest,
    /// Who the bot is.
    pub owner: String,
    /// When the list was asked for, in nanoseconds since the Unix epoch.
    pub now: i128,
}

/// A reconciliation that waits for its new invite.
#[derive(Debug)]
pub struct AwaitInvite {
    pub channel: String,
}

/// What a reconciliation needs next.
#[derive(Debug)]
pub enum Step {
    /// Send the request and hand the outcome to `Inviteify::identified`.
    Identify(AwaitIdentity, Request),
    /// Send the request and hand the outcome to `Inviteify::listed`.
    List(AwaitInvites, Request),
    /// Send the request and hand the outcome to `Inviteify::created`.
    Create(AwaitInvite, Request),
    /// Nothing: this is the invite to hand out, or why there is none.
    Done(Result<ChannelInvite, InviteifyError>),
}

/// A `Step` as mathematics.
pub enum StepView {
    Identify { channel: Seq<char>, request: ChannelInviteRequest, send: RequestView },
    List {
        channel: Seq<char>,
        request: ChannelInviteRequest,
        owner: Seq<char>,
        now: int,
        send: RequestView,
    },
    Create { channel: Seq<char>, send: RequestView },
    Done(Result<ChannelInviteView, InviteifyErrorView>),
}

impl View for Step {
    type V = StepView;

    open spec fn view(&self) -> StepView {
        match self {
            Step::Identify(pending, send) => StepView::Identify {
                channel: pending.channel@,
                request: pending.request,
                send: send@,
            },
            Step::List(pending, send) => StepView::List {
                channel: pending.channel@,
                request: pending.request,
                owner: pending.owner@,
                now: pending.now as int,
                send: send@,
            },
            Step::Create(pending, send) => StepView::Create {
                channel: pending.channel@,
                send: send@,
            },
            Step::Done(Ok(invite)) => StepView::Done(Ok(invite@)),
            Step::Done(Err(failure)) => StepView::Done(Err(failure@)),
        }
    }
}

/// Whether `step` does not end in an API failure, or ends in one with a status
/// outside the success class.
pub open spec fn ends_outside_success(step: Step) -> bool {
    step matches Step::Done(result) ==> fails_outside_success(result)
}

/// The step that lists the invites of `channel` for `owner`.
pub open spec fn listing(
    channel: Seq<char>,
    request: ChannelInviteRequest,
    owner: Seq<char>,
    now: int,
) -> StepView {
    StepView::List { channel, request, owner, now, send: list_request(channel) }
}

/// The first step of a reconciliation: to list at once where the identity is
/// known, and to ask for it where it is not.
pub open spec fn started(
    identity: Option<Seq<char>>,
    channel: Seq<char>,
    request: ChannelInviteRequest,
    now: int,
) -> StepView {
    match identity {
        Some(owner) => listing(channel, request, owner, now),
        None => StepView::Identify { channel, request, send: identity_request() },
    }
}

/// The step after the identity was asked for: to list for the identity that was
/// resolved, or to end with the failure, unchanged.
pub open spec fn after_identity(
    channel: Seq<char>,
    request: ChannelInviteRequest,
    resolution: Result<Seq<char>, InviteifyErrorView>,
    now: int,
) -> StepView {
    match resolution {
        Ok(owner) => listing(channel, request, owner, now),
        Err(failure) => StepView::Done(Err(failure)),
    }
}

/// The step after the invites were listed: to end with the first invite that
/// serves, to create one where none serves, or to end with the failure.
pub open spec fn after_listing(
    channel: Seq<char>,
    request: ChannelInviteRequest,
    owner: Seq<char>,
    now: int,
    reply: Result<Seq<ChannelInviteView>, InviteifyErrorView>,
) -> StepView {
    match reply {
        Ok(invites) => match first_reusable(invites, owner, now, request.max_age) {
            Some(i) => StepView::Done(Ok(invites[i])),
            None => StepView::Create { channel, send: create_request(channel, request) },
        },
        Err(failure) => StepView::Done(Err(failure)),
    }
}

/// The step after an invite was asked for: to end, with the new invite or with
/// the failure.
pub open spec fn after_creation(reply: Result<ChannelInviteView, InviteifyErrorView>) -> StepView {
    StepView::Done(reply)
}

/// A bot's client: its credentials, and its identity once that is known. The
/// identity is resolved at most once: only a new client forgets it. Whatever
/// writes the identity holds the client exclusively, so two resolutions cannot
/// meet in it.
#[derive(Debug)]
pub struct Inviteify {
    http: Client,
    user_id: Option<String>,
}

impl Inviteify {
    /// The credentials that the client was made with.
    pub closed spec fn client(&self) -> Client {
        self.http
    }

    /// The identity that the client remembers.
    pub closed spec fn identity(&self) -> Option<Seq<char>> {
        match self.user_id {
            Some(id) => Some(id@),
            None => None,
        }
    }

    /// A client for the application `client_id` that authenticates as a bot with
    /// `auth_token`, and does not know its identity yet.
    pub fn new(client_id: &str, auth_token: &str) -> (service: Self)
        ensures
            service.identity() is None,
            service.client().client_id@ == client_id@,
            service.client().authorization@ == "Bot "@ + auth_token@,
            service.client().permissions == 0,
    {
        Inviteify { http: Client::new(client_id, auth_token), user_id: None }
    }

    /// The same client, with authorization links that ask for `permissions`.
    pub fn with_permissions(self, permissions: u64) -> (service: Self)
        ensures
            service.identity() == self.identity(),
            service.client().client_id == self.client().client_id,
            service.client().authorization == self.client().authorization,
            service.client().permissions == permissions,
    {
        Inviteify { http: self.http.with_permissions(permissions), user_id: self.user_id }
    }

    /// The credentials, for whoever sends the requests.
    pub fn http(&self) -> (client: &Client)
        ensures
            *client == self.client(),
    {
        &self.http
    }

    /// Tells who the bot is, or what to send to find out. Once `identify` has
    /// resolved the identity, this asks for nothing again.
    pub fn whoami(&self) -> (answer: Whoami)
        ensures
            match self.identity() {
                Some(id) => answer matches Whoami::Known(user_id) && user_id@ == id,
                None => answer matches Whoami::Ask(request) && Some(request@) == whoami_request(
                    self.identity(),
                ),
            },
    {
        match &self.user_id {
            Some(user_id) => Whoami::Known(user_id.clone()),
            None => Whoami::Ask(self.http.get(IDENTITY_PATH)),
        }
    }

    /// Takes the outcome of the request that `whoami` asked for. Where the
    /// response decodes to an object with a string member `id`, that is the
    /// identity: it is remembered and returned. Anything else that decodes is an
    /// `AuthenticationError`, and a failed exchange is its own failure; neither
    /// is remembered. A client that knows its identity keeps it, whatever the
    /// outcome holds.
    pub fn identify(&mut self, outcome: Result<Response<serde_json::Value>, reqwest::Error>) -> (result:
        Result<String, InviteifyError>)
        ensures
            final(self).client() == old(self).client(),
            final(self).identity() == identity_after(old(self).identity(), outcome),
            match resolution(old(self).identity(), outcome) {
                Ok(id) => result matches Ok(user_id) && user_id@ == id,
                Err(failure) => result matches Err(e) && e@ == failure,
            },
            fails_outside_success(result),
    {
        if let Some(user_id) = &self.user_id {
            return Ok(user_id.clone());
        }
        let asked = self.http.get(IDENTITY_PATH);
        let document = match receive(asked.url, outcome) {
            Ok(document) => document,
            Err(e) => {
                return Err(e);
            },
        };
        match read_identity(&document) {
            Ok(user_id) => {
                self.user_id = Some(user_id.clone());
                Ok(user_id)
            },
            Err(e) => Err(e),
        }
    }

    /// The link on which the owner of the server `server_id` authorizes the bot,
    /// with the client's permission bitmask. Nothing is sent.
    pub fn authorization_link(&self, server_id: &str) -> (link: String)
        ensures
            link@ == authorize_link_text(
                self.client().client_id@,
                self.client().permissions,
                server_id@,
            ),
    {
        self.http.authorize_link(server_id)
    }

    /// The link of `invite`: the invite domain and the code, as it is.
    pub fn invite_link(&self, invite: &ChannelInvite) -> (link: String)
        ensures
            link@ == invite_link_text(invite.code@),
    {
        String::from_str(DISCORD_INVITE_BASE).concat(invite.code.as_str())
    }

    /// The QR symbol of the link of `invite`, or `QrError` with the encoder's
    /// reason where the link has none.
    pub fn invite_qrcode(&self, invite: &ChannelInvite) -> (result: Result<QrCode, InviteifyError>)
        ensures
            match qr_symbol(invite_link_text(invite.code@)) {
                Ok(code) => result == Ok::<QrCode, InviteifyError>(code),
                Err(e) => result == Err::<QrCode, InviteifyError>(InviteifyError::QrError(e)),
            },
    {
        let link = self.invite_link(invite);
        match encode(link.as_str()) {
            Ok(code) => Ok(code),
            Err(e) => Err(InviteifyError::from(e)),
        }
    }

    /// The QR symbol of the link of `invite` as an SVG document at least
    /// `min_dimension` pixels wide and high, or `QrError` where the link has no
    /// symbol. There is no other format to fall back to.
    pub fn invite_qrcode_svg(&self, invite: &ChannelInvite, min_dimension: u16) -> (result: Result<
        String,
        InviteifyError,
    >)
        ensures
            match qr_symbol(invite_link_text(invite.code@)) {
                Ok(code) => result matches Ok(image) && image@ == svg_image(code, min_dimension),
                Err(e) => result == Err::<String, InviteifyError>(InviteifyError::QrError(e)),
            },
    {
        match self.invite_qrcode(invite) {
            Ok(code) => Ok(render_svg(&code, min_dimension)),
            Err(e) => Err(e),
        }
    }

    /// The path of the invites of `channel`.
    fn channel_invites(channel: &str) -> (path: String)
        ensures
            path@ == invites_path(channel@),
    {
        String::from_str("/channels/").concat(channel).concat("/invites")
    }

    /// The address of the invites of `channel`.
    fn channel_invites_url(&self, channel: &str) -> (url: String)
        ensures
            url@ == list_request(channel@).url,
            url@ == create_request_url(channel@),
    {
        self.channel_invite_list(channel).url
    }

    /// The request that lists the invites of `channel`.
    fn channel_invite_list(&self, channel: &str) -> (send: Request)
        ensures
            send@ == list_request(channel@),
    {
        let path = Self::channel_invites(channel);
        self.http.get(path.as_str())
    }

    /// The request that creates an invite to `channel` as `request` asks.
    fn channel_invite_create(&self, channel: &str, request: ChannelInviteRequest) -> (send: Request)
        ensures
            send@ == create_request(channel@, request),
    {
        let path = Self::channel_invites(channel);
        self.http.post(path.as_str(), request)
    }

    /// The step that lists the invites of `channel` for `owner`.
    fn list(&self, channel: String, request: ChannelInviteRequest, owner: String, now: i128) -> (step:
        Step)
        ensures
            step@ == listing(channel@, request, owner@, now as int),
    {
        let send = self.channel_invite_list(channel.as_str());
        Step::List(AwaitInvites { channel, request, owner, now }, send)
    }

    /// Begins to reconcile the invites of `channel` with `request`, as of now.
    /// The step is that of `check_and_generate_invite_at` for the instant that
    /// the clock gave.
    pub fn check_and_generate_invite(&self, channel: &str, request: ChannelInviteRequest) -> (step: Step)
        ensures
            exists|now: i128| step@ == #[trigger] started(self.identity(), channel@, request, now as int),
    {
        let now = unix_now();
        self.check_and_generate_invite_at(channel, request, now)
    }

    /// Begins to reconcile the invites of `channel` with `request`, as of `now`
    /// (nanoseconds since the Unix epoch): the invite that comes out is one that
    /// the bot made and that lasts longer than `request.max_age` seconds from
    /// `now`, or a new one made for `request`. The first step lists the invites
    /// where the identity is known, and asks for the identity where it is not.
    pub fn check_and_generate_invite_at(
        &self,
        channel: &str,
        request: ChannelInviteRequest,
        now: i128,
    ) -> (step: Step)
        ensures
            step@ == started(self.identity(), channel@, request, now as int),
    {
        match &self.user_id {
            Some(owner) => self.list(String::from_str(channel), request, owner.clone(), now),
            None => Step::Identify(
                AwaitIdentity { channel: String::from_str(channel), request },
                self.http.get(IDENTITY_PATH),
            ),
        }
    }

    /// Takes the outcome of the identity request of a reconciliation, as of now.
    /// The step is that of `identified_at` for the instant that the clock gave.
    pub fn identified(
        &mut self,
        pending: AwaitIdentity,
        outcome: Result<Response<serde_json::Value>, reqwest::Error>,
    ) -> (step: Step)
        ensures
            final(self).client() == old(self).client(),
            final(self).identity() == identity_after(old(self).identity(), outcome),
            exists|now: i128|
                step@ == #[trigger] after_identity(
                    pending.channel@,
                    pending.request,
                    resolution(old(self).identity(), outcome),
                    now as int,
                ),
            ends_outside_success(step),
    {
        let now = unix_now();
        self.identified_at(pending, outcome, now)
    }

    /// Takes the outcome of the identity request of a reconciliation, as of
    /// `now`. An identity that resolves is remembered, and the invites are
    /// listed for it; a failure ends the reconciliation, unchanged.
    pub fn identified_at(
        &mut self,
        pending: AwaitIdentity,
        outcome: Result<Response<serde_json::Value>, reqwest::Error>,
        now: i128,
    ) -> (step: Step)
        ensures
            final(self).client() == old(self).client(),
            final(self).identity() == identity_after(old(self).identity(), outcome),
            step@ == after_identity(
                pending.channel@,
                pending.request,
                resolution(old(self).identity(), outcome),
                now as int,
            ),
            ends_outside_success(step),
    {
        let AwaitIdentity { channel, request } = pending;
        match self.identify(outcome) {
            Ok(owner) => self.list(channel, request, owner, now),
            Err(e) => Step::Done(Err(e)),
        }
    }

    /// Takes the outcome of the list request of a reconciliation. The first
    /// listed invite that the bot made and that never expires, or expires
    /// strictly after `request.max_age` seconds from `pending.now`, ends the
    /// reconciliation, and nothing is written. Where there is none, an invite is
    /// to be created for `pending.request`. A failure ends the reconciliation,
    /// unchanged: a response with a status outside the success class, and no
    /// other, is an `APIError` with that status and the address of the list
    /// request.
    pub fn listed(
        &self,
        pending: AwaitInvites,
        outcome: Result<Response<Vec<ChannelInvite>>, reqwest::Error>,
    ) -> (step: Step)
        ensures
            step@ == after_listing(
                pending.channel@,
                pending.request,
                pending.owner@,
                pending.now as int,
                listed_reply(pending.channel@, outcome),
            ),
            ends_outside_success(step),
    {
        let AwaitInvites { channel, request, owner, now } = pending;
        match receive(self.channel_invites_url(channel.as_str()), outcome) {
            Ok(invites) => match select_invite(invites, &owner, now, request.max_age) {
                Some(invite) => Step::Done(Ok(invite)),
                None => {
                    let send = self.channel_invite_create(channel.as_str(), request);
                    Step::Create(AwaitInvite { channel }, send)
                },
            },
            Err(e) => Step::Done(Err(e)),
        }
    }

    /// Takes the outcome of the create request of a reconciliation, which ends
    /// with it: with the new invite, or with the failure, unchanged. A response
    /// with a status outside the success class, and no other, is an `APIError`
    /// with that status and the address of the create request.
    pub fn created(
        &self,
        pending: AwaitInvite,
        outcome: Result<Response<ChannelInvite>, reqwest::Error>,
    ) -> (step: Step)
        ensures
            step@ == after_creation(created_reply(pending.channel@, outcome)),
            ends_outside_success(step),
    {
        Step::Done(receive(self.channel_invites_url(pending.channel.as_str()), outcome))
    }
}

} // verus!
