//! What holds of every reconciliation and of every identity resolution,
//! stated over the steps that the client takes.

use vstd::prelude::*;
use crate::error::{recorded_body, APIErrorView, InviteifyErrorView};
use crate::http::{
    decoded, status_is_success, Accepted, ChannelInvite, ChannelInviteRequest, ChannelInviteView,
    Refused, Response,
};
use crate::invite::{
    first_reusable, first_reusable_at, first_reusable_is_first, none_reusable, request_expiry,
    reusable,
};
use crate::json::{json_is_object, json_members, json_string};
use crate::service::{
    after_creation, after_listing, create_request, create_request_url, created_reply,
    identity_after, identity_request, list_request, listed_reply, resolution, resolved,
    whoami_request, StepView,
};

verus! {

/// Where the bot made none of the invites of the channel, the reconciliation
/// asks for exactly one invite to be created, for the request as it was given,
/// and ends with the invite that the creation returned.
pub proof fn no_invite_of_owner_creates_one(
    channel: Seq<char>,
    request: ChannelInviteRequest,
    owner: Seq<char>,
    now: int,
    invites: Seq<ChannelInviteView>,
    created: ChannelInviteView,
)
    requires
        forall|j: int| 0 <= j < invites.len() ==> (#[trigger] invites[j]).inviter != owner,
    ensures
        none_reusable(invites, owner, now, request.max_age),
        after_listing(channel, request, owner, now, Ok(invites)) == (StepView::Create {
            channel,
            send: create_request(channel, request),
        }),
        after_creation(Ok(created)) == StepView::Done(Ok(created)),
{
    first_reusable_is_first(invites, owner, now, request.max_age);
}

/// Where the bot made exactly one of the invites of the channel, and that one
/// never expires, the reconciliation ends with it and creates nothing, whatever
/// age the request asks for.
pub proof fn sole_unexpiring_invite_ends_reconciliation(
    channel: Seq<char>,
    request: ChannelInviteRequest,
    owner: Seq<char>,
    now: int,
    invites: Seq<ChannelInviteView>,
    k: int,
)
    requires
        0 <= k < invites.len(),
        invites[k].inviter == owner,
        invites[k].expires_at is None,
        forall|j: int| 0 <= j < invites.len() && j != k ==> (#[trigger] invites[j]).inviter != owner,
    ensures
        first_reusable(invites, owner, now, request.max_age) == Some(k),
        after_listing(channel, request, owner, now, Ok(invites)) == StepView::Done(Ok(invites[k])),
{
    first_reusable_at(invites, owner, now, request.max_age, k);
}

/// Where each invite that the bot made expires no later than
/// `request.max_age` seconds from now, the reconciliation asks for an invite
/// to be created: a stale invite is never handed out.
pub proof fn stale_invites_create_one(
    channel: Seq<char>,
    request: ChannelInviteRequest,
    owner: Seq<char>,
    now: int,
    invites: Seq<ChannelInviteView>,
)
    requires
        forall|j: int|
            0 <= j < invites.len() && (#[trigger] invites[j]).inviter == owner ==> (
            invites[j].expires_at matches Some(t) && t <= request_expiry(now, request.max_age)),
    ensures
        none_reusable(invites, owner, now, request.max_age),
        after_listing(channel, request, owner, now, Ok(invites)) == (StepView::Create {
            channel,
            send: create_request(channel, request),
        }),
{
    first_reusable_is_first(invites, owner, now, request.max_age);
}

/// An invite that the listing ends with is one of the list, made by the bot,
/// that never expires or expires strictly after `request.max_age` seconds from
/// now; and none before it in the list is such an invite.
pub proof fn reused_invite_serves(
    channel: Seq<char>,
    request: ChannelInviteRequest,
    owner: Seq<char>,
    now: int,
    invites: Seq<ChannelInviteView>,
)
    ensures
        match first_reusable(invites, owner, now, request.max_age) {
            Some(i) => {
                &&& 0 <= i < invites.len()
                &&& after_listing(channel, request, owner, now, Ok(invites)) == StepView::Done(
                    Ok(invites[i]),
                )
                &&& reusable(invites[i], owner, now, request.max_age)
                &&& forall|j: int|
                    0 <= j < i ==> !reusable(#[trigger] invites[j], owner, now, request.max_age)
            },
            None => after_listing(channel, request, owner, now, Ok(invites)) is Create,
        },
{
    first_reusable_is_first(invites, owner, now, request.max_age);
}

/// Once an exchange has resolved the identity, the client remembers it:
/// `whoami` asks for no request again, and whatever a later exchange holds,
/// the identity stays the one that was resolved. So of two calls of `whoami`
/// around a resolution that succeeds, at most one asks for a request.
pub proof fn identity_is_resolved_once(
    cached: Option<Seq<char>>,
    first: Result<Response<serde_json::Value>, reqwest::Error>,
    second: Result<Response<serde_json::Value>, reqwest::Error>,
)
    requires
        resolution(cached, first) is Ok,
    ensures
        whoami_request(identity_after(cached, first)) is None,
        resolution(identity_after(cached, first), second) == resolution(cached, first),
        identity_after(identity_after(cached, first), second) == identity_after(cached, first),
{
}

/// A client that knows its identity asks for no request, and no exchange
/// changes what it knows.
pub proof fn known_identity_stays(
    id: Seq<char>,
    outcome: Result<Response<serde_json::Value>, reqwest::Error>,
)
    ensures
        whoami_request(Some(id)) is None,
        resolution(Some(id), outcome) == Ok::<Seq<char>, InviteifyErrorView>(id),
        identity_after(Some(id), outcome) == Some(id),
{
}

/// A successful response whose document is no object, or is an object without
/// a member `id`, or with a member `id` that is no string, is an
/// authentication failure, and leaves a client that knew no identity without
/// one.
pub proof fn malformed_identity_is_refused(accepted: Accepted, document: serde_json::Value)
    requires
        !json_is_object(document) || !json_members(document).contains_key("id"@) || json_string(
            json_members(document)["id"@],
        ) is None,
    ensures
        resolved(Ok(Response::Decoded(accepted, document))) == Err::<Seq<char>, InviteifyErrorView>(
            InviteifyErrorView::AuthenticationError,
        ),
        identity_after(None, Ok(Response::Decoded(accepted, document))) is None,
{
}

/// A response yields an API failure exactly where its status lies outside the
/// success class, and the failure carries that status, the address that was
/// asked, and the body. Under a success status it yields the decoded body.
pub proof fn api_failure_is_a_status_outside_success<T>(url: Seq<char>, response: Response<T>)
    ensures
        decoded(url, response) is Ok <==> status_is_success(response.status()),
        decoded(url, response) matches Err(failure) ==> (failure matches InviteifyErrorView::APIError(e)
            && e.url == url && e.status == response.status() && !status_is_success(e.status)),
{
    response.decoded_under_success();
}

/// A response to the list request with a status outside the success class ends
/// the reconciliation with an API failure that carries that status, the
/// address of the list request, and the body of the response. No response
/// with a success status ends it with an API failure.
pub proof fn refused_listing_is_api_error(
    channel: Seq<char>,
    request: ChannelInviteRequest,
    owner: Seq<char>,
    now: int,
    response: Response<Vec<ChannelInvite>>,
)
    ensures
        !status_is_success(response.status()) ==> (after_listing(
            channel,
            request,
            owner,
            now,
            listed_reply(channel, Ok(response)),
        ) matches StepView::Done(Err(InviteifyErrorView::APIError(e))) && e.url == list_request(
            channel,
        ).url && e.status == response.status()),
        status_is_success(response.status()) ==> !(after_listing(
            channel,
            request,
            owner,
            now,
            listed_reply(channel, Ok(response)),
        ) matches StepView::Done(Err(InviteifyErrorView::APIError(_)))),
{
    response.decoded_under_success();
}

/// A response to the identity request or to the create request with a status
/// outside the success class is an API failure with that status, the address
/// of that request, and the body of the response.
pub proof fn refused_exchange_is_api_error(channel: Seq<char>, refused: Refused, text: Option<String>)
    ensures
        !status_is_success(refused@),
        resolved(Ok(Response::Refused(refused, text))) == Err::<Seq<char>, InviteifyErrorView>(
            InviteifyErrorView::APIError(
                APIErrorView {
                    url: identity_request().url,
                    status: refused@,
                    body: recorded_body(text),
                },
            ),
        ),
        after_creation(created_reply(channel, Ok(Response::Refused(refused, text)))) == StepView::Done(
            Err(
                InviteifyErrorView::APIError(
                    APIErrorView {
                        url: create_request_url(channel),
                        status: refused@,
                        body: recorded_body(text),
                    },
                ),
            ),
        ),
{
    refused.is_no_success();
}

} // verus!
