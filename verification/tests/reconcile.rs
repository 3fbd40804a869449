use inviteify::http::{
    answered, ChannelInvite, ChannelInviteRequest, Method, Response, Unread, User,
};
use inviteify::service::{AwaitInvite, AwaitInvites, Inviteify, Step};
use inviteify::InviteifyError;

const NOW: i128 = 1_700_000_000_000_000_000;
const DAY: i128 = 86_400_000_000_000;

fn invite(code: &str, expires_at: Option<i128>, inviter: &str) -> ChannelInvite {
    ChannelInvite {
        code: code.to_string(),
        expires_at,
        inviter: User { id: inviter.to_string() },
    }
}

fn request(max_age: u64) -> ChannelInviteRequest {
    ChannelInviteRequest { max_age, ..ChannelInviteRequest::default() }
}

fn ok<T>(value: T) -> Result<Response<T>, reqwest::Error> {
    match answered(200) {
        Unread::Accepted(accepted) => Ok(Response::Decoded(accepted, value)),
        Unread::Refused(_) => panic!("200 is a success"),
    }
}

fn refused<T>(status: u16, text: Option<&str>) -> Result<Response<T>, reqwest::Error> {
    match answered(status) {
        Unread::Refused(refused) => Ok(Response::Refused(refused, text.map(str::to_string))),
        Unread::Accepted(_) => panic!("{status} is a success"),
    }
}

fn known(id: &str) -> Inviteify {
    let mut service = Inviteify::new("client", "token");
    let document: serde_json::Value =
        serde_json::from_str(&format!("{{\"id\":\"{id}\"}}")).unwrap();
    let resolved = service.identify(ok(document));
    assert_eq!(resolved.unwrap(), id);
    service
}

fn listing(service: &Inviteify, channel: &str, request: ChannelInviteRequest) -> AwaitInvites {
    match service.check_and_generate_invite_at(channel, request, NOW) {
        Step::List(pending, send) => {
            assert_eq!(send.method, Method::Get);
            assert_eq!(send.url, format!("https://discord.com/api/v10/channels/{channel}/invites"));
            assert!(send.body.is_none());
            pending
        }
        other => panic!("expected a list step, got {other:?}"),
    }
}

fn the_two_invites() -> Vec<ChannelInvite> {
    vec![invite("abc", Some(NOW + 2 * DAY), "u1"), invite("xyz", None, "u2")]
}

const LIST_URL: &str = "https://discord.com/api/v10/channels/123/invites";

#[test]
fn invite_that_outlasts_the_request_is_reused() {
    let service = known("u1");
    let pending = listing(&service, "123", request(86400));
    assert_eq!(pending.owner, "u1");
    assert_eq!(pending.now, NOW);
    match service.listed(pending, ok(the_two_invites())) {
        Step::Done(Ok(found)) => {
            assert_eq!(found.code, "abc");
            assert_eq!(found.expires_at, Some(NOW + 2 * DAY));
            assert_eq!(found.inviter.id, "u1");
        }
        other => panic!("expected the invite abc, got {other:?}"),
    }
}

#[test]
fn invite_that_expires_too_soon_is_replaced() {
    let service = known("u1");
    let pending = listing(&service, "123", request(5 * 86400));
    let (pending, send) = match service.listed(pending, ok(the_two_invites())) {
        Step::Create(pending, send) => (pending, send),
        other => panic!("expected a create step, got {other:?}"),
    };
    assert_eq!(send.method, Method::Post);
    assert_eq!(send.url, LIST_URL);
    let body = send.body.expect("a create request has a body");
    assert_eq!(body.max_age, 5 * 86400);
    assert_eq!(body.max_uses, 0);
    assert!(!body.temporary);
    assert!(!body.unique);
    match service.created(pending, ok(invite("fresh", Some(NOW + 5 * DAY), "u1"))) {
        Step::Done(Ok(made)) => {
            assert_eq!(made.code, "fresh");
            assert_ne!(made.code, "abc");
        }
        other => panic!("expected the new invite, got {other:?}"),
    }
}

#[test]
fn no_invite_of_the_caller_creates_one() {
    let service = known("u1");
    let pending = listing(&service, "9", request(60));
    let theirs = vec![invite("a", None, "u2"), invite("b", Some(NOW + 9 * DAY), "u3")];
    assert!(matches!(service.listed(pending, ok(theirs)), Step::Create(_, _)));
    let pending = listing(&service, "9", request(60));
    let (pending, send) = match service.listed(pending, ok(Vec::new())) {
        Step::Create(pending, send) => (pending, send),
        other => panic!("expected a create step, got {other:?}"),
    };
    assert_eq!(send.method, Method::Post);
    assert_eq!(send.url, "https://discord.com/api/v10/channels/9/invites");
    assert_eq!(send.body.map(|body| body.max_age), Some(60));
    match service.created(pending, ok(invite("made", Some(NOW + 60_000_000_000), "u1"))) {
        Step::Done(Ok(made)) => assert_eq!(made.code, "made"),
        other => panic!("expected the new invite, got {other:?}"),
    }
}

#[test]
fn request_for_no_age_reuses_what_has_not_expired() {
    let service = known("u1");
    let pending = listing(&service, "9", request(0));
    let live = vec![invite("gone", Some(NOW), "u1"), invite("live", Some(NOW + 1), "u1")];
    match service.listed(pending, ok(live)) {
        Step::Done(Ok(found)) => assert_eq!(found.code, "live"),
        other => panic!("expected the invite live, got {other:?}"),
    }
}

#[test]
fn unexpiring_invite_is_reused_whatever_age_is_asked() {
    let service = known("u1");
    for max_age in [0, 1, 86400, u64::MAX] {
        let pending = listing(&service, "9", request(max_age));
        let invites = vec![invite("theirs", None, "u2"), invite("mine", None, "u1")];
        match service.listed(pending, ok(invites)) {
            Step::Done(Ok(found)) => assert_eq!(found.code, "mine"),
            other => panic!("expected the invite mine, got {other:?}"),
        }
    }
}

#[test]
fn expiry_must_lie_strictly_after_the_request_expiry() {
    let service = known("u1");
    let pending = listing(&service, "9", request(86400));
    let at_the_bound = vec![invite("edge", Some(NOW + DAY), "u1")];
    assert!(matches!(service.listed(pending, ok(at_the_bound)), Step::Create(_, _)));
    let pending = listing(&service, "9", request(86400));
    let just_after = vec![invite("edge", Some(NOW + DAY + 1), "u1")];
    assert!(matches!(service.listed(pending, ok(just_after)), Step::Done(Ok(_))));
    let pending = listing(&service, "9", request(86400));
    let just_before = vec![invite("edge", Some(NOW + DAY - 1), "u1")];
    assert!(matches!(service.listed(pending, ok(just_before)), Step::Create(_, _)));
}

#[test]
fn first_invite_that_serves_wins_in_list_order() {
    let service = known("u1");
    let pending = listing(&service, "9", request(86400));
    let invites = vec![
        invite("stale", Some(NOW + 10), "u1"),
        invite("other", None, "u2"),
        invite("late", Some(NOW + 3 * DAY), "u1"),
        invite("later", Some(NOW + 30 * DAY), "u1"),
        invite("forever", None, "u1"),
    ];
    match service.listed(pending, ok(invites)) {
        Step::Done(Ok(found)) => assert_eq!(found.code, "late"),
        other => panic!("expected the invite late, got {other:?}"),
    }
}

#[test]
fn request_expiry_beyond_the_clock_range_reuses_only_unexpiring_invites() {
    let service = known("u1");
    let pending = AwaitInvites {
        channel: "9".to_string(),
        request: request(u64::MAX),
        owner: "u1".to_string(),
        now: i128::MAX - 5,
    };
    let invites = vec![invite("far", Some(i128::MAX), "u1")];
    assert!(matches!(service.listed(pending, ok(invites)), Step::Create(_, _)));
}

#[test]
fn refused_listing_is_an_api_error_with_status_and_address() {
    let service = known("u1");
    let pending = listing(&service, "123", request(86400));
    match service.listed(pending, refused(403, Some("{\"message\": \"Missing Access\"}"))) {
        Step::Done(Err(InviteifyError::APIError(e))) => {
            assert_eq!(e.url, LIST_URL);
            assert_eq!(e.status, 403);
            assert_eq!(e.body, "{\"message\": \"Missing Access\"}");
        }
        other => panic!("expected an API error, got {other:?}"),
    }
}

#[test]
fn refused_creation_is_an_api_error() {
    let service = known("u1");
    let pending = AwaitInvite { channel: "123".to_string() };
    match service.created(pending, refused(500, None)) {
        Step::Done(Err(InviteifyError::APIError(e))) => {
            assert_eq!(e.url, LIST_URL);
            assert_eq!(e.status, 500);
            assert_eq!(e.body, "Could not decode body to text");
        }
        other => panic!("expected an API error, got {other:?}"),
    }
}

#[test]
fn unknown_identity_is_asked_for_first() {
    let mut service = Inviteify::new("client", "token");
    let (pending, send) = match service.check_and_generate_invite_at("123", request(86400), NOW) {
        Step::Identify(pending, send) => (pending, send),
        other => panic!("expected an identify step, got {other:?}"),
    };
    assert_eq!(send.method, Method::Get);
    assert_eq!(send.url, "https://discord.com/api/v10/users/@me");
    assert_eq!(pending.channel, "123");
    let document: serde_json::Value = serde_json::from_str("{\"id\": \"u1\"}").unwrap();
    let pending = match service.identified_at(pending, ok(document), NOW + 7) {
        Step::List(pending, send) => {
            assert_eq!(send.url, LIST_URL);
            pending
        }
        other => panic!("expected a list step, got {other:?}"),
    };
    assert_eq!(pending.owner, "u1");
    assert_eq!(pending.now, NOW + 7);
    assert_eq!(pending.request.max_age, 86400);
    assert!(matches!(
        service.check_and_generate_invite_at("123", request(86400), NOW),
        Step::List(_, _)
    ));
}

#[test]
fn failed_identity_ends_the_reconciliation() {
    let mut service = Inviteify::new("client", "token");
    let pending = match service.check_and_generate_invite_at("123", request(86400), NOW) {
        Step::Identify(pending, _) => pending,
        other => panic!("expected an identify step, got {other:?}"),
    };
    let document: serde_json::Value = serde_json::from_str("[1, 2]").unwrap();
    let step = service.identified_at(pending, ok(document), NOW);
    assert!(matches!(step, Step::Done(Err(InviteifyError::AuthenticationError))));
}

#[test]
fn reconciliation_reads_the_clock() {
    let service = known("u1");
    match service.check_and_generate_invite("123", request(86400)) {
        Step::List(pending, _) => {
            assert!(pending.now > NOW);
            assert!(pending.now < NOW + 100 * 365 * DAY);
        }
        other => panic!("expected a list step, got {other:?}"),
    }
    let mut fresh = Inviteify::new("client", "token");
    let pending = match fresh.check_and_generate_invite("123", request(86400)) {
        Step::Identify(pending, _) => pending,
        other => panic!("expected an identify step, got {other:?}"),
    };
    let document: serde_json::Value = serde_json::from_str("{\"id\": \"u1\"}").unwrap();
    match fresh.identified(pending, ok(document)) {
        Step::List(pending, _) => assert!(pending.now > NOW),
        other => panic!("expected a list step, got {other:?}"),
    }
}

#[test]
fn every_status_outside_the_success_class_refuses_the_listing() {
    let service = known("u1");
    for status in [100, 199, 300, 301, 304, 400, 404, 429, 500, 999] {
        let pending = listing(&service, "123", request(86400));
        match service.listed(pending, refused(status, Some("no"))) {
            Step::Done(Err(InviteifyError::APIError(e))) => {
                assert_eq!(e.status, status);
                assert_eq!(e.url, LIST_URL);
                assert_eq!(e.body, "no");
            }
            other => panic!("expected an API error, got {other:?}"),
        }
    }
}

#[test]
fn no_success_status_is_an_api_error() {
    let service = known("u1");
    for status in [200, 201, 204, 299] {
        let pending = listing(&service, "123", request(86400));
        let outcome = match answered(status) {
            Unread::Accepted(accepted) => Ok(Response::Decoded(accepted, the_two_invites())),
            Unread::Refused(_) => panic!("{status} is a success"),
        };
        assert!(matches!(service.listed(pending, outcome), Step::Done(Ok(_))));
    }
}
