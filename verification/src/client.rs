//! The client: the three calls of an upload, each as the request to send and
//! the meaning of what comes back. The caller owns the transport. It sends
//! each request that the client hands out and reports the reply.

use crate::checksum::{calculate_sha1, lower_hex, max_message_len, sha1_digest};
use crate::encoding::{encode_file_name, percent_encoded};
use crate::error::B2Error;
use crate::json::{json_document, json_strings, parse_json};
use crate::models::{
    auth_reply, bucket_request_json, is_auth_reply, is_upload_url_reply, upload_url_reply,
    AuthResponse, AuthResponseView, BucketRequest, UploadUrlResponse, UploadUrlResponseView,
};
use crate::naming::{generate_file_name, is_generated_name};
use crate::request::{header_line, BasicAuth, BasicAuthView, Header, Method, Request, RequestView};
use crate::text::{decimal_string, decimal_text};
use vstd::prelude::*;
use vstd::string::StringExecFns;
use vstd::utf8::encode_utf8;

verus! {

/// The name of the configuration value that holds the key id.
pub const KEY_ID_VARIABLE: &'static str = "B2_KEY_ID";

/// The name of the configuration value that holds the key secret.
pub const KEY_NAME_VARIABLE: &'static str = "B2_KEY_NAME";

/// The name of the configuration value that holds the bucket id.
pub const BUCKET_ID_VARIABLE: &'static str = "B2_BUCKET_ID";

/// The account key and the bucket that a client works with.
pub struct Credentials {
    pub key_id: Seq<char>,
    pub key_name: Seq<char>,
    pub bucket_id: Seq<char>,
}

/// A client after its session was negotiated.
pub struct B2UploaderView {
    pub credentials: Credentials,
    pub auth_response: AuthResponseView,
    pub upload_url_response: UploadUrlResponseView,
}

/// Where the negotiation of a session stands.
pub enum SetupView {
    /// The authorize request is out.
    Authorizing(Credentials),
    /// The account is authorized, and the request for an upload URL is out.
    Locating(Credentials, AuthResponseView),
}

/// A client with a negotiated session: it holds the upload URL and its
/// token, and makes the request for each upload.
#[derive(Debug)]
pub struct B2Uploader {
    auth_response: AuthResponse,
    upload_url_response: UploadUrlResponse,
    key_id: String,
    key_name: String,
    bucket_id: String,
}

/// A session that is being negotiated. It waits for the reply to the request
/// that was handed out with it.
#[derive(Debug)]
pub struct Setup {
    uploader: B2Uploader,
    auth_response: Option<AuthResponse>,
}

/// One step of the negotiation: what the caller does next.
#[derive(Debug)]
pub enum Progress {
    /// Send the request, and hand what comes back to [`Setup::advance`].
    Send(Setup, Request),
    /// The session stands.
    Ready(B2Uploader),
    /// The negotiation failed. Nothing more is to be sent.
    Failed(B2Error),
}

/// What the status of an upload response means, and with it how its body
/// is to be read.
#[derive(Debug, Clone, Copy, PartialEq, Eq, Structural)]
pub enum UploadReply {
    /// A success status: the body is JSON, for [`UploadReply::accepted`].
    Accepted,
    /// Any other status: the body is text, for [`UploadReply::rejected`].
    Rejected { status_code: u16 },
}

/// Whether an HTTP status lies in the success range, 200 to 299.
pub open spec fn is_success_status(status_code: u16) -> bool {
    200 <= status_code && status_code < 300
}

/// The first configuration value that is missing, by its name: the key id
/// before the key secret before the bucket id.
pub open spec fn missing_variable(
    key_id: Option<String>,
    key_name: Option<String>,
    bucket_id: Option<String>,
) -> Option<Seq<char>> {
    if key_id is None {
        Some(KEY_ID_VARIABLE@)
    } else if key_name is None {
        Some(KEY_NAME_VARIABLE@)
    } else if bucket_id is None {
        Some(BUCKET_ID_VARIABLE@)
    } else {
        None
    }
}

/// The text of the error for a missing configuration value.
pub open spec fn not_set_message(name: Seq<char>) -> Seq<char> {
    name + " not set"@
}

/// The authorize request: a GET with the key id as user name and the key
/// secret as password, and nothing else.
pub open spec fn authorize_request(credentials: Credentials) -> RequestView {
    RequestView {
        method: Method::Get,
        url: "https://api.backblazeb2.com/b2api/v3/b2_authorize_account"@,
        basic_auth: Some(
            BasicAuthView { username: credentials.key_id, password: credentials.key_name },
        ),
        headers: Seq::empty(),
        body: None,
    }
}

/// The request for an upload URL: a POST to the storage API of the session,
/// under its token, with the JSON document `json` as body.
pub open spec fn upload_url_request(auth_response: AuthResponseView, json: Seq<u8>) -> RequestView {
    RequestView {
        method: Method::Post,
        url: auth_response.api_url + "/b2api/v3/b2_get_upload_url"@,
        basic_auth: None,
        headers: seq![
            header_line("Authorization"@, auth_response.authorization_token),
            header_line("Content-Type"@, "application/json"@),
        ],
        body: Some(json),
    }
}

/// The upload of `content` under the name `file_name`: a POST to the upload
/// URL, under its token, with the encoded name, the length and the digest of
/// the content in the header, and the content as body.
pub open spec fn upload_request(
    target: UploadUrlResponseView,
    file_name: Seq<char>,
    content: Seq<u8>,
) -> RequestView {
    RequestView {
        method: Method::Post,
        url: target.upload_url,
        basic_auth: None,
        headers: seq![
            header_line("Authorization"@, target.authorization_token),
            header_line("X-Bz-File-Name"@, percent_encoded(encode_utf8(file_name))),
            header_line("Content-Type"@, "text/plain"@),
            header_line("Content-Length"@, decimal_text(content.len())),
            header_line("X-Bz-Content-Sha1"@, lower_hex(sha1_digest(content))),
        ],
        body: Some(content),
    }
}

/// The error for the missing configuration value `name`.
fn not_set(name: &str) -> (e: B2Error)
    ensures
        e matches B2Error::ConfigError(message) && message@ == not_set_message(name@),
{
    let mut message = String::from_str(name);
    message.append(" not set");
    B2Error::ConfigError(message)
}

impl View for B2Uploader {
    type V = B2UploaderView;

    closed spec fn view(&self) -> B2UploaderView {
        B2UploaderView {
            credentials: self.credentials(),
            auth_response: self.auth_response@,
            upload_url_response: self.upload_url_response@,
        }
    }
}

impl View for Setup {
    type V = SetupView;

    closed spec fn view(&self) -> SetupView {
        match self.auth_response {
            None => SetupView::Authorizing(self.uploader.credentials()),
            Some(auth_response) => SetupView::Locating(
                self.uploader.credentials(),
                auth_response@,
            ),
        }
    }
}

impl B2Uploader {
    /// The account key and the bucket of this client.
    pub closed spec fn credentials(&self) -> Credentials {
        Credentials { key_id: self.key_id@, key_name: self.key_name@, bucket_id: self.bucket_id@ }
    }

    /// Starts a client from its three configuration values, each as it was
    /// found or not. With all three at hand the negotiation begins with the
    /// authorize request. With one missing it fails at once and names the
    /// first that is missing; nothing is to be sent then.
    pub fn new(key_id: Option<String>, key_name: Option<String>, bucket_id: Option<String>) -> (p:
        Progress)
        ensures
            match missing_variable(key_id, key_name, bucket_id) {
                Some(name) => p matches Progress::Failed(B2Error::ConfigError(message))
                    && message@ == not_set_message(name),
                None => {
                    let credentials = Credentials {
                        key_id: key_id->0@,
                        key_name: key_name->0@,
                        bucket_id: bucket_id->0@,
                    };
                    p matches Progress::Send(setup, request) && setup@ == SetupView::Authorizing(
                        credentials,
                    ) && request@ == authorize_request(credentials)
                },
            },
    {
        let key_id = match key_id {
            Some(value) => value,
            None => {
                return Progress::Failed(not_set(KEY_ID_VARIABLE));
            },
        };
        let key_name = match key_name {
            Some(value) => value,
            None => {
                return Progress::Failed(not_set(KEY_NAME_VARIABLE));
            },
        };
        let bucket_id = match bucket_id {
            Some(value) => value,
            None => {
                return Progress::Failed(not_set(BUCKET_ID_VARIABLE));
            },
        };
        let uploader = B2Uploader {
            auth_response: AuthResponse::default(),
            upload_url_response: UploadUrlResponse {
                upload_url: String::new(),
                authorization_token: String::new(),
            },
            key_id,
            key_name,
            bucket_id,
        };
        let request = uploader.authenticate();
        Progress::Send(Setup { uploader, auth_response: None }, request)
    }

    /// The authorize request for the account key of this client.
    pub fn authenticate(&self) -> (request: Request)
        ensures
            request@ == authorize_request(self.credentials()),
    {
        let request = Request {
            method: Method::Get,
            url: String::from_str("https://api.backblazeb2.com/b2api/v3/b2_authorize_account"),
            basic_auth: Some(
                BasicAuth { username: self.key_id.clone(), password: self.key_name.clone() },
            ),
            headers: Vec::new(),
            body: None,
        };
        assert(request@.headers =~= Seq::empty());
        request
    }

    /// The request for an upload URL into the bucket of this client, under
    /// the session `auth_response`.
    pub fn get_upload_url(&self, auth_response: &AuthResponse) -> (request: Request)
        ensures
            request@ == upload_url_request(
                auth_response@,
                bucket_request_json(self.credentials().bucket_id),
            ),
    {
        let bucket = BucketRequest { bucket_id: self.bucket_id.clone() };
        let mut url = auth_response.api_info.storage_api.api_url.clone();
        url.append("/b2api/v3/b2_get_upload_url");
        let mut headers: Vec<Header> = Vec::new();
        headers.push(Header::new("Authorization", auth_response.authorization_token.clone()));
        headers.push(Header::new("Content-Type", String::from_str("application/json")));
        let request = Request {
            method: Method::Post,
            url,
            basic_auth: None,
            headers,
            body: Some(bucket.to_json()),
        };
        assert(request@.headers =~= upload_url_request(
            auth_response@,
            bucket_request_json(self.credentials().bucket_id),
        ).headers);
        request
    }

    /// The request that uploads `file_content` under the name `file_name`.
    pub fn upload_named(&self, file_name: &str, file_content: Vec<u8>) -> (request: Request)
        requires
            file_content@.len() <= max_message_len(),
        ensures
            request@ == upload_request(self@.upload_url_response, file_name@, file_content@),
    {
        let sha1_hash = calculate_sha1(file_content.as_slice());
        let encoded_file_name = encode_file_name(file_name);
        let mut headers: Vec<Header> = Vec::new();
        headers.push(
            Header::new("Authorization", self.upload_url_response.authorization_token.clone()),
        );
        headers.push(Header::new("X-Bz-File-Name", encoded_file_name));
        headers.push(Header::new("Content-Type", String::from_str("text/plain")));
        headers.push(Header::new("Content-Length", decimal_string(file_content.len())));
        headers.push(Header::new("X-Bz-Content-Sha1", sha1_hash));
        let request = Request {
            method: Method::Post,
            url: self.upload_url_response.upload_url.clone(),
            basic_auth: None,
            headers,
            body: Some(file_content),
        };
        assert(request@.headers =~= upload_request(
            self@.upload_url_response,
            file_name@,
            file_content@,
        ).headers);
        request
    }

    /// The request that uploads `file_content` under a name made from the
    /// local time. The caller sends it and reads the status of the response
    /// with [`UploadReply::of_status`].
    pub fn upload_file(&self, file_content: Vec<u8>) -> (request: Request)
        requires
            file_content@.len() <= max_message_len(),
        ensures
            exists|file_name: Seq<char>|
                is_generated_name(file_name) && request@ == #[trigger] upload_request(
                    self@.upload_url_response,
                    file_name,
                    file_content@,
                ),
    {
        let cloud_name = generate_file_name();
        self.upload_named(cloud_name.as_str(), file_content)
    }

    /// The reply of the authorize call that this session rests on.
    pub fn auth_response(&self) -> (r: &AuthResponse)
        ensures
            r@ == self@.auth_response,
    {
        &self.auth_response
    }

    /// The upload URL and token of this session.
    pub fn upload_url_response(&self) -> (r: &UploadUrlResponse)
        ensures
            r@ == self@.upload_url_response,
    {
        &self.upload_url_response
    }
}

impl Setup {
    /// Takes what the transport handed back for the request that is out (the
    /// body of the response, or the failure) and says what comes next.
    ///
    /// A failure of the transport ends the negotiation with that failure.
    /// While authorizing, a body that is an authorize reply leads to the
    /// request for an upload URL, made from that reply. After that, a body
    /// that is a get-upload-url reply completes the session. Any other body
    /// ends the negotiation with a JSON error. The status of the response
    /// plays no part: only the body is read.
    pub fn advance(self, reply: Result<Vec<u8>, reqwest::Error>) -> (p: Progress)
        ensures
            match (reply, self@) {
                (Err(failure), _) => p matches Progress::Failed(B2Error::RequestError(e)) && e
                    == failure,
                (Ok(body), SetupView::Authorizing(credentials)) => match json_document(body@) {
                    Some(strings) if is_auth_reply(strings) => p matches Progress::Send(
                        next,
                        request,
                    ) && next@ == SetupView::Locating(credentials, auth_reply(strings))
                        && request@ == upload_url_request(
                        auth_reply(strings),
                        bucket_request_json(credentials.bucket_id),
                    ),
                    _ => p matches Progress::Failed(e) && e is JsonError,
                },
                (Ok(body), SetupView::Locating(credentials, auth_response)) => match json_document(
                    body@,
                ) {
                    Some(strings) if is_upload_url_reply(strings) => p matches Progress::Ready(
                        uploader,
                    ) && uploader@ == (B2UploaderView {
                        credentials,
                        auth_response,
                        upload_url_response: upload_url_reply(strings),
                    }),
                    _ => p matches Progress::Failed(e) && e is JsonError,
                },
            },
    {
        let body = match reply {
            Ok(body) => body,
            Err(failure) => {
                return Progress::Failed(B2Error::from(failure));
            },
        };
        let Setup { uploader, auth_response } = self;
        match auth_response {
            None => {
                let auth_response = match AuthResponse::from_body(body.as_slice()) {
                    Ok(reply) => reply,
                    Err(e) => {
                        return Progress::Failed(e);
                    },
                };
                let request = uploader.get_upload_url(&auth_response);
                Progress::Send(Setup { uploader, auth_response: Some(auth_response) }, request)
            },
            Some(auth_response) => {
                let upload_url_response = match UploadUrlResponse::from_body(body.as_slice()) {
                    Ok(reply) => reply,
                    Err(e) => {
                        return Progress::Failed(e);
                    },
                };
                Progress::Ready(
                    B2Uploader {
                        auth_response,
                        upload_url_response,
                        key_id: uploader.key_id,
                        key_name: uploader.key_name,
                        bucket_id: uploader.bucket_id,
                    },
                )
            },
        }
    }
}

impl UploadReply {
    /// Reads the status of an upload response: 200 to 299 is success.
    pub fn of_status(status_code: u16) -> (reply: UploadReply)
        ensures
            reply == if is_success_status(status_code) {
                UploadReply::Accepted
            } else {
                UploadReply::Rejected { status_code }
            },
    {
        if 200 <= status_code && status_code < 300 {
            UploadReply::Accepted
        } else {
            UploadReply::Rejected { status_code }
        }
    }

    /// The result of an accepted upload, from what the transport handed back
    /// for the body: the body as JSON, as it came. A body that is not JSON
    /// is a JSON error, and a body that could not be read is the failure of
    /// the transport.
    pub fn accepted(body: Result<Vec<u8>, reqwest::Error>) -> (r: Result<
        serde_json::Value,
        B2Error,
    >)
        ensures
            match body {
                Ok(bytes) => match r {
                    Ok(value) => json_document(bytes@) == Some(json_strings(value)),
                    Err(e) => e is JsonError && json_document(bytes@) is None,
                },
                Err(failure) => r matches Err(B2Error::RequestError(e)) && e == failure,
            },
    {
        match body {
            Ok(bytes) => match parse_json(bytes.as_slice()) {
                Ok(value) => Ok(value),
                Err(e) => Err(B2Error::from(e)),
            },
            Err(failure) => Err(B2Error::from(failure)),
        }
    }

    /// The error of a rejected upload, from what the transport handed back
    /// for the body as text: the status and the whole text. Where the text
    /// could not be read, the failure of the transport takes its place.
    pub fn rejected(status_code: u16, text: Result<String, reqwest::Error>) -> (e: B2Error)
        ensures
            match text {
                Ok(message) => e matches B2Error::UploadError { status_code: code, message: m }
                    && code == status_code && m@ == message@,
                Err(failure) => e matches B2Error::RequestError(f) && f == failure,
            },
    {
        match text {
            Ok(message) => B2Error::UploadError { status_code, message },
            Err(failure) => B2Error::from(failure),
        }
    }
}

} // verus!
