use inviteify::http::{answered, Method, Response, Unread};
use inviteify::service::{identity_from, read_identity, Inviteify, Whoami};
use inviteify::InviteifyError;

const ME: &str = "https://discord.com/api/v10/users/@me";

fn json(text: &str) -> serde_json::Value {
    serde_json::from_str(text).unwrap()
}

fn answer(text: &str) -> Result<Response<serde_json::Value>, reqwest::Error> {
    match answered(200) {
        Unread::Accepted(accepted) => Ok(Response::Decoded(accepted, json(text))),
        Unread::Refused(_) => panic!("200 is a success"),
    }
}

fn refusal(status: u16, text: Option<&str>) -> Result<Response<serde_json::Value>, reqwest::Error> {
    match answered(status) {
        Unread::Refused(refused) => Ok(Response::Refused(refused, text.map(str::to_string))),
        Unread::Accepted(_) => panic!("{status} is a success"),
    }
}

fn transport_failure() -> reqwest::Error {
    reqwest::Client::new().get("no address").build().unwrap_err()
}

#[test]
fn whoami_asks_once() {
    let mut service = Inviteify::new("client", "token");
    match service.whoami() {
        Whoami::Ask(send) => {
            assert_eq!(send.method, Method::Get);
            assert_eq!(send.url, ME);
            assert!(send.body.is_none());
        }
        other => panic!("expected a request, got {other:?}"),
    }
    assert_eq!(service.identify(answer("{\"id\": \"80351110224678912\"}")).unwrap(), "80351110224678912");
    assert!(matches!(service.whoami(), Whoami::Known(id) if id == "80351110224678912"));
    assert!(matches!(service.whoami(), Whoami::Known(id) if id == "80351110224678912"));
}

#[test]
fn known_identity_is_kept() {
    let mut service = Inviteify::new("client", "token");
    assert_eq!(service.identify(answer("{\"id\": \"u1\"}")).unwrap(), "u1");
    assert_eq!(service.identify(answer("{\"id\": \"u2\"}")).unwrap(), "u1");
    assert_eq!(service.identify(refusal(500, None)).unwrap(), "u1");
    assert_eq!(service.identify(Err(transport_failure())).unwrap(), "u1");
    assert!(matches!(service.whoami(), Whoami::Known(id) if id == "u1"));
}

#[test]
fn malformed_identity_is_an_authentication_error() {
    for body in ["[]", "\"u1\"", "12", "null", "true", "{}", "{\"name\": \"u1\"}", "{\"id\": 12}",
        "{\"id\": null}", "{\"id\": {\"id\": \"u1\"}}", "{\"id\": [\"u1\"]}", "[{\"id\": \"u1\"}]"]
    {
        let mut service = Inviteify::new("client", "token");
        let result = service.identify(answer(body));
        assert!(matches!(result, Err(InviteifyError::AuthenticationError)), "{body}");
        assert!(matches!(service.whoami(), Whoami::Ask(_)), "{body}");
    }
}

#[test]
fn failed_resolution_is_not_remembered() {
    let mut service = Inviteify::new("client", "token");
    assert!(matches!(service.identify(answer("{}")), Err(InviteifyError::AuthenticationError)));
    assert!(matches!(service.whoami(), Whoami::Ask(_)));
    assert_eq!(service.identify(answer("{\"id\": \"u1\"}")).unwrap(), "u1");
    assert!(matches!(service.whoami(), Whoami::Known(_)));
}

#[test]
fn refused_identity_is_an_api_error() {
    let mut service = Inviteify::new("client", "token");
    match service.identify(refusal(401, Some("{\"message\": \"401: Unauthorized\"}"))) {
        Err(InviteifyError::APIError(e)) => {
            assert_eq!(e.url, ME);
            assert_eq!(e.status, 401);
            assert_eq!(e.body, "{\"message\": \"401: Unauthorized\"}");
        }
        other => panic!("expected an API error, got {other:?}"),
    }
    assert!(matches!(service.whoami(), Whoami::Ask(_)));
}

#[test]
fn refused_identity_without_text_has_the_placeholder() {
    let mut service = Inviteify::new("client", "token");
    match service.identify(refusal(404, None)) {
        Err(InviteifyError::APIError(e)) => {
            assert_eq!(e.url, ME);
            assert_eq!(e.status, 404);
            assert_eq!(e.body, "Could not decode body to text");
        }
        other => panic!("expected an API error, got {other:?}"),
    }
}

#[test]
fn transport_failure_is_handed_on() {
    let mut service = Inviteify::new("client", "token");
    let expected = transport_failure().to_string();
    match service.identify(Err(transport_failure())) {
        Err(InviteifyError::ReqwestError(e)) => {
            assert!(e.is_builder());
            assert_eq!(e.to_string(), expected);
        }
        other => panic!("expected a transport failure, got {other:?}"),
    }
    assert!(matches!(service.whoami(), Whoami::Ask(_)));
}

#[test]
fn identity_is_the_string_member_id() {
    assert_eq!(read_identity(&json("{\"id\": \"u1\", \"bot\": true}")).unwrap(), "u1");
    assert_eq!(read_identity(&json("{\"id\": \"\"}")).unwrap(), "");
    assert_eq!(read_identity(&json("{\"ID\": \"no\", \"id\": \"yes\"}")).unwrap(), "yes");
    assert!(matches!(read_identity(&json("{\"ID\": \"u1\"}")), Err(InviteifyError::AuthenticationError)));
    assert!(matches!(read_identity(&json("\"id\"")), Err(InviteifyError::AuthenticationError)));
}

#[test]
fn identity_is_the_text_read_of_an_object() {
    assert_eq!(identity_from(true, Some("u1")).unwrap(), "u1");
    assert_eq!(identity_from(true, Some("")).unwrap(), "");
    assert!(matches!(identity_from(true, None), Err(InviteifyError::AuthenticationError)));
    assert!(matches!(identity_from(false, None), Err(InviteifyError::AuthenticationError)));
    assert!(matches!(identity_from(false, Some("u1")), Err(InviteifyError::AuthenticationError)));
}
