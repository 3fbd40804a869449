//! The failures that an operation of this library can end in.

use vstd::prelude::*;
use vstd::std_specs::convert::FromSpecImpl;
use qrcode::types::QrError;

verus! {

/// `reqwest::Error`, a failure of the HTTP transport, carried as an opaque value.
#[verifier::external_type_specification]
#[verifier::external_body]
pub struct ExReqwestError(reqwest::Error);

/// The text that `http` prints for the status code `status`: the number and its
/// canonical reason phrase ("404 Not Found"), "<unknown status code>" in place
/// of a phrase it does not know, and the text of its range error for a number
/// outside 100 to 999.
pub uninterp spec fn status_display(status: u16) -> Seq<char>;

/// The text that `reqwest` prints for the transport failure `e`.
pub uninterp spec fn transport_display(e: reqwest::Error) -> Seq<char>;

/// `reqwest::StatusCode::from_u16` and the `Display` of what it returns, the
/// status code or the range error. The text depends on `status` alone.
#[verifier::external_body]
fn status_text(status: u16) -> (text: String)
    ensures
        text@ == status_display(status),
{
    match reqwest::StatusCode::from_u16(status) {
        Ok(code) => code.to_string(),
        Err(invalid) => invalid.to_string(),
    }
}

/// The `Display` of `reqwest::Error`. The text depends on the error alone.
#[verifier::external_body]
fn transport_text(e: &reqwest::Error) -> (text: String)
    ensures
        text@ == transport_display(*e),
{
    e.to_string()
}

/// The body recorded for a refused request whose body could not be read as text.
pub const UNREADABLE_BODY: &'static str = "Could not decode body to text";

/// A response that the API gave with a status outside the success class.
#[derive(Debug)]
pub struct APIError {
    /// The address that was asked: that of the request, as it was composed.
    pub url: String,
    /// The status code of the response.
    pub status: u16,
    /// The body of the response as text, or `UNREADABLE_BODY`.
    pub body: String,
}

/// An `APIError` as mathematics.
pub struct APIErrorView {
    pub url: Seq<char>,
    pub status: u16,
    pub body: Seq<char>,
}

impl View for APIError {
    type V = APIErrorView;

    open spec fn view(&self) -> APIErrorView {
        APIErrorView { url: self.url@, status: self.status, body: self.body@ }
    }
}

/// The body that an `APIError` records for a response whose text was `text`.
pub open spec fn recorded_body(text: Option<String>) -> Seq<char> {
    match text {
        Some(t) => t@,
        None => UNREADABLE_BODY@,
    }
}

/// The one-line rendering of an API failure whose status reads `status`.
pub open spec fn api_error_line(e: APIErrorView, status: Seq<char>) -> Seq<char> {
    "URL: "@ + e.url + ", Status: "@ + status + ", Body: "@ + e.body
}

/// The one-line rendering of an API failure, with its status as `http` prints it.
pub open spec fn api_error_text(e: APIErrorView) -> Seq<char> {
    api_error_line(e, status_display(e.status))
}

impl APIError {
    /// Records a refused request: the address asked, the status of the response
    /// and its body, where `text` is the body read as text and `None` stands for
    /// a body that could not be read.
    pub fn from_reqwest(url: String, status: u16, text: Option<String>) -> (e: APIError)
        ensures
            e.url == url,
            e.status == status,
            e.body@ == recorded_body(text),
    {
        let body = match text {
            Some(t) => t,
            None => String::from_str(UNREADABLE_BODY),
        };
        APIError { url, status, body }
    }

    /// Renders the failure on one line, with `status` as the text of its status.
    pub fn render(&self, status: &str) -> (s: String)
        ensures
            s@ == api_error_line(self@, status@),
    {
        String::from_str("URL: ").concat(self.url.as_str()).concat(", Status: ").concat(status).concat(
            ", Body: ",
        ).concat(self.body.as_str())
    }

    /// Renders the failure with all of its context on one line: the address, the
    /// status with its reason phrase, and the body.
    pub fn to_string(&self) -> (s: String)
        ensures
            s@ == api_error_text(self@),
    {
        let status = status_text(self.status);
        self.render(status.as_str())
    }
}

/// Why an operation of this library failed. No operation retries: each of these
/// ends the operation that met it.
#[derive(Debug)]
pub enum InviteifyError {
    /// The caller's identity could not be established.
    AuthenticationError,
    /// The API answered with a status outside the success class.
    APIError(APIError),
    /// The transport failed, or the body under a success status did not decode.
    ReqwestError(reqwest::Error),
    /// No QR symbol could be made.
    QrError(QrError),
}

/// An `InviteifyError` as mathematics.
pub enum InviteifyErrorView {
    AuthenticationError,
    APIError(APIErrorView),
    ReqwestError(reqwest::Error),
    QrError(QrError),
}

impl View for InviteifyError {
    type V = InviteifyErrorView;

    open spec fn view(&self) -> InviteifyErrorView {
        match self {
            InviteifyError::AuthenticationError => InviteifyErrorView::AuthenticationError,
            InviteifyError::APIError(e) => InviteifyErrorView::APIError(e@),
            InviteifyError::ReqwestError(e) => InviteifyErrorView::ReqwestError(*e),
            InviteifyError::QrError(e) => InviteifyErrorView::QrError(*e),
        }
    }
}

/// What `qrcode` prints for each of its errors.
pub open spec fn qr_error_text(e: QrError) -> Seq<char> {
    match e {
        QrError::DataTooLong => "data too long"@,
        QrError::InvalidVersion => "invalid version"@,
        QrError::UnsupportedCharacterSet => "unsupported character set"@,
        QrError::InvalidEciDesignator => "invalid ECI designator"@,
        QrError::InvalidCharacter => "invalid character"@,
    }
}

/// The rendering of a failure.
pub open spec fn error_text(e: InviteifyErrorView) -> Seq<char> {
    match e {
        InviteifyErrorView::AuthenticationError => "Authentication Error"@,
        InviteifyErrorView::APIError(api) => api_error_text(api),
        InviteifyErrorView::ReqwestError(transport) => transport_display(transport),
        InviteifyErrorView::QrError(qr) => qr_error_text(qr),
    }
}

impl InviteifyError {
    /// Renders the failure: a fixed text for an authentication failure, the full
    /// context of an API failure, and the underlying error's own text otherwise.
    pub fn to_string(&self) -> (s: String)
        ensures
            s@ == error_text(self@),
    {
        match self {
            InviteifyError::AuthenticationError => String::from_str("Authentication Error"),
            InviteifyError::APIError(err) => err.to_string(),
            InviteifyError::ReqwestError(err) => transport_text(err),
            InviteifyError::QrError(err) => {
                let text = match err {
                    QrError::DataTooLong => "data too long",
                    QrError::InvalidVersion => "invalid version",
                    QrError::UnsupportedCharacterSet => "unsupported character set",
                    QrError::InvalidEciDesignator => "invalid ECI designator",
                    QrError::InvalidCharacter => "invalid character",
                };
                String::from_str(text)
            },
        }
    }
}

impl From<APIError> for InviteifyError {
    fn from(err: APIError) -> (e: Self) {
        InviteifyError::APIError(err)
    }
}

impl FromSpecImpl<APIError> for InviteifyError {
    open spec fn obeys_from_spec() -> bool {
        true
    }

    open spec fn from_spec(err: APIError) -> Self {
        InviteifyError::APIError(err)
    }
}

impl From<reqwest::Error> for InviteifyError {
    fn from(err: reqwest::Error) -> (e: Self) {
        InviteifyError::ReqwestError(err)
    }
}

impl FromSpecImpl<reqwest::Error> for InviteifyError {
    open spec fn obeys_from_spec() -> bool {
        true
    }

    open spec fn from_spec(err: reqwest::Error) -> Self {
        InviteifyError::ReqwestError(err)
    }
}

impl From<QrError> for InviteifyError {
    fn from(err: QrError) -> (e: Self) {
        InviteifyError::QrError(err)
    }
}

impl FromSpecImpl<QrError> for InviteifyError {
    open spec fn obeys_from_spec() -> bool {
        true
    }

    open spec fn from_spec(err: QrError) -> Self {
        InviteifyError::QrError(err)
    }
}

} // verus!
