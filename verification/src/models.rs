//! What the service sends and is sent: the two replies of the session
//! negotiation, and the request for an upload URL.

use crate::error::B2Error;
use crate::json::{
    json_document, json_error, json_quoted, json_strings, member_under, parse_json,
    push_json_string, strings_under, text_under,
};
use vstd::prelude::*;
use vstd::string::StrSliceExecFns;
use vstd::utf8::encode_utf8;

verus! {

/// The reply to the authorize call: where the storage API is, and the token
/// that opens it.
#[derive(Debug)]
pub struct AuthResponse {
    pub api_info: ApiInfo,
    pub authorization_token: String,
}

/// The APIs that the account may use.
#[derive(Debug)]
pub struct ApiInfo {
    pub storage_api: StorageApi,
}

/// The storage API.
#[derive(Debug)]
pub struct StorageApi {
    pub api_url: String,
}

/// The reply to the get-upload-url call: where to upload, and the token that
/// goes with that URL.
#[derive(Debug)]
pub struct UploadUrlResponse {
    pub authorization_token: String,
    pub upload_url: String,
}

/// The body of the get-upload-url call.
#[derive(Debug)]
pub struct BucketRequest {
    pub bucket_id: String,
}

/// An authorize reply as text.
pub struct AuthResponseView {
    pub api_url: Seq<char>,
    pub authorization_token: Seq<char>,
}

/// A get-upload-url reply as text.
pub struct UploadUrlResponseView {
    pub authorization_token: Seq<char>,
    pub upload_url: Seq<char>,
}

impl View for AuthResponse {
    type V = AuthResponseView;

    open spec fn view(&self) -> AuthResponseView {
        AuthResponseView {
            api_url: self.api_info.storage_api.api_url@,
            authorization_token: self.authorization_token@,
        }
    }
}

impl View for UploadUrlResponse {
    type V = UploadUrlResponseView;

    open spec fn view(&self) -> UploadUrlResponseView {
        UploadUrlResponseView {
            authorization_token: self.authorization_token@,
            upload_url: self.upload_url@,
        }
    }
}

impl Default for StorageApi {
    fn default() -> (r: StorageApi)
        ensures
            r.api_url@ == Seq::<char>::empty(),
    {
        StorageApi { api_url: String::new() }
    }
}

impl Default for ApiInfo {
    fn default() -> (r: ApiInfo)
        ensures
            r.storage_api.api_url@ == Seq::<char>::empty(),
    {
        ApiInfo { storage_api: StorageApi::default() }
    }
}

impl Default for AuthResponse {
    /// The reply that holds nothing: an empty URL and an empty token.
    fn default() -> (r: AuthResponse)
        ensures
            r@.api_url == Seq::<char>::empty(),
            r@.authorization_token == Seq::<char>::empty(),
    {
        AuthResponse { api_info: ApiInfo::default(), authorization_token: String::new() }
    }
}

/// The member names that lead to the URL of the storage API.
pub open spec fn api_url_path() -> Seq<Seq<char>> {
    seq!["apiInfo"@, "storageApi"@, "apiUrl"@]
}

/// The member name of the token, in either reply.
pub open spec fn token_path() -> Seq<Seq<char>> {
    seq!["authorizationToken"@]
}

/// The member name of the upload URL.
pub open spec fn upload_url_path() -> Seq<Seq<char>> {
    seq!["uploadUrl"@]
}

/// Whether a document with these strings is an authorize reply: it has the
/// URL of the storage API and the token, both as strings.
pub open spec fn is_auth_reply(strings: Map<Seq<Seq<char>>, Seq<char>>) -> bool {
    strings.contains_key(api_url_path()) && strings.contains_key(token_path())
}

/// The authorize reply that a document with these strings holds.
pub open spec fn auth_reply(strings: Map<Seq<Seq<char>>, Seq<char>>) -> AuthResponseView {
    AuthResponseView { api_url: strings[api_url_path()], authorization_token: strings[token_path()] }
}

/// Whether a document with these strings is a get-upload-url reply: it has
/// the token and the upload URL, both as strings.
pub open spec fn is_upload_url_reply(strings: Map<Seq<Seq<char>>, Seq<char>>) -> bool {
    strings.contains_key(token_path()) && strings.contains_key(upload_url_path())
}

/// The get-upload-url reply that a document with these strings holds.
pub open spec fn upload_url_reply(strings: Map<Seq<Seq<char>>, Seq<char>>) -> UploadUrlResponseView {
    UploadUrlResponseView {
        authorization_token: strings[token_path()],
        upload_url: strings[upload_url_path()],
    }
}

/// The JSON document that asks for an upload URL into the bucket
/// `bucket_id`: one object with the member `bucketId`, without white space.
pub open spec fn bucket_request_json(bucket_id: Seq<char>) -> Seq<u8> {
    encode_utf8("{\"bucketId\":"@) + json_quoted(encode_utf8(bucket_id)) + encode_utf8("}"@)
}

/// The error for a reply that has not the expected shape.
fn shape_error(message: &str) -> (e: B2Error)
    ensures
        e is JsonError,
{
    B2Error::JsonError(json_error(message))
}

/// The string member `name` of the object `value`, which stands under the
/// member names `prefix`.
fn string_member(
    value: &serde_json::Value,
    name: &str,
    missing: &str,
    Ghost(strings): Ghost<Map<Seq<Seq<char>>, Seq<char>>>,
    Ghost(prefix): Ghost<Seq<Seq<char>>>,
) -> (r: Result<String, B2Error>)
    requires
        json_strings(*value) == strings_under(strings, prefix),
    ensures
        match r {
            Ok(text) => strings.contains_key(prefix.push(name@)) && strings[prefix.push(name@)]
                == text@,
            Err(e) => e is JsonError && !strings.contains_key(prefix.push(name@)),
        },
{
    match member_under(value, name, Ghost(strings), Ghost(prefix)) {
        Some(member) => match text_under(member, Ghost(strings), Ghost(prefix.push(name@))) {
            Some(text) => Ok(text),
            None => Err(shape_error("invalid type: expected a string")),
        },
        None => {
            proof {
                assert(prefix.push(name@) + Seq::<Seq<char>>::empty() =~= prefix.push(name@));
            }
            Err(shape_error(missing))
        },
    }
}

/// The object member `name` of the object `value`, which stands under the
/// member names `prefix`.
fn object_member<'a>(
    value: &'a serde_json::Value,
    name: &str,
    missing: &str,
    Ghost(strings): Ghost<Map<Seq<Seq<char>>, Seq<char>>>,
    Ghost(prefix): Ghost<Seq<Seq<char>>>,
) -> (r: Result<&'a serde_json::Value, B2Error>)
    requires
        json_strings(*value) == strings_under(strings, prefix),
    ensures
        match r {
            Ok(member) => json_strings(*member) == strings_under(strings, prefix.push(name@)),
            Err(e) => e is JsonError && forall|path: Seq<Seq<char>>|
                !strings.contains_key(#[trigger] (prefix.push(name@) + path)),
        },
{
    match member_under(value, name, Ghost(strings), Ghost(prefix)) {
        Some(member) => Ok(member),
        None => Err(shape_error(missing)),
    }
}

impl AuthResponse {
    /// Reads an authorize reply out of a JSON value: the string under
    /// `apiInfo`, `storageApi`, `apiUrl` and the string under
    /// `authorizationToken`. Other members are passed over. A value that lacks
    /// one of the two strings is refused.
    pub fn from_json(value: &serde_json::Value) -> (r: Result<AuthResponse, B2Error>)
        ensures
            match r {
                Ok(reply) => is_auth_reply(json_strings(*value)) && reply@ == auth_reply(
                    json_strings(*value),
                ),
                Err(e) => e is JsonError && !is_auth_reply(json_strings(*value)),
            },
    {
        let ghost strings = json_strings(*value);
        let ghost top = Seq::<Seq<char>>::empty();
        proof {
            assert(strings_under(strings, top) =~= strings) by {
                assert forall|path: Seq<Seq<char>>| top + path =~= path by {}
            }
            assert(top.push("apiInfo"@).push("storageApi"@).push("apiUrl"@) =~= api_url_path());
            assert(top.push("authorizationToken"@) =~= token_path());
            assert(top.push("apiInfo"@).push("storageApi"@) + seq!["apiUrl"@] =~= api_url_path());
            assert(top.push("apiInfo"@) + seq!["storageApi"@, "apiUrl"@] =~= api_url_path());
        }
        let api_info = match object_member(
            value,
            "apiInfo",
            "missing field `apiInfo`",
            Ghost(strings),
            Ghost(top),
        ) {
            Ok(member) => member,
            Err(e) => {
                return Err(e);
            },
        };
        let storage_api = match object_member(
            api_info,
            "storageApi",
            "missing field `storageApi`",
            Ghost(strings),
            Ghost(top.push("apiInfo"@)),
        ) {
            Ok(member) => member,
            Err(e) => {
                return Err(e);
            },
        };
        let api_url = match string_member(
            storage_api,
            "apiUrl",
            "missing field `apiUrl`",
            Ghost(strings),
            Ghost(top.push("apiInfo"@).push("storageApi"@)),
        ) {
            Ok(text) => text,
            Err(e) => {
                return Err(e);
            },
        };
        let authorization_token = match string_member(
            value,
            "authorizationToken",
            "missing field `authorizationToken`",
            Ghost(strings),
            Ghost(top),
        ) {
            Ok(text) => text,
            Err(e) => {
                return Err(e);
            },
        };
        Ok(AuthResponse { api_info: ApiInfo { storage_api: StorageApi { api_url } }, authorization_token })
    }

    /// Reads an authorize reply out of the body of a response. The body has
    /// to be one JSON document that holds the two strings of an authorize
    /// reply; any other body is refused.
    pub fn from_body(body: &[u8]) -> (r: Result<AuthResponse, B2Error>)
        ensures
            match r {
                Ok(reply) => json_document(body@) matches Some(strings) && is_auth_reply(strings)
                    && reply@ == auth_reply(strings),
                Err(e) => e is JsonError && !(json_document(body@) matches Some(strings)
                    && is_auth_reply(strings)),
            },
    {
        match parse_json(body) {
            Ok(value) => AuthResponse::from_json(&value),
            Err(e) => Err(B2Error::JsonError(e)),
        }
    }
}

impl UploadUrlResponse {
    /// Reads a get-upload-url reply out of a JSON value: the strings under
    /// `authorizationToken` and under `uploadUrl`. Other members are passed
    /// over. A value that lacks one of the two strings is refused.
    pub fn from_json(value: &serde_json::Value) -> (r: Result<UploadUrlResponse, B2Error>)
        ensures
            match r {
                Ok(reply) => is_upload_url_reply(json_strings(*value)) && reply@
                    == upload_url_reply(json_strings(*value)),
                Err(e) => e is JsonError && !is_upload_url_reply(json_strings(*value)),
            },
    {
        let ghost strings = json_strings(*value);
        let ghost top = Seq::<Seq<char>>::empty();
        proof {
            assert(strings_under(strings, top) =~= strings) by {
                assert forall|path: Seq<Seq<char>>| top + path =~= path by {}
            }
            assert(top.push("authorizationToken"@) =~= token_path());
            assert(top.push("uploadUrl"@) =~= upload_url_path());
        }
        let authorization_token = match string_member(
            value,
            "authorizationToken",
            "missing field `authorizationToken`",
            Ghost(strings),
            Ghost(top),
        ) {
            Ok(text) => text,
            Err(e) => {
                return Err(e);
            },
        };
        let upload_url = match string_member(
            value,
            "uploadUrl",
            "missing field `uploadUrl`",
            Ghost(strings),
            Ghost(top),
        ) {
            Ok(text) => text,
            Err(e) => {
                return Err(e);
            },
        };
        Ok(UploadUrlResponse { authorization_token, upload_url })
    }

    /// Reads a get-upload-url reply out of the body of a response. The body
    /// has to be one JSON document that holds the two strings of such a
    /// reply; any other body is refused.
    pub fn from_body(body: &[u8]) -> (r: Result<UploadUrlResponse, B2Error>)
        ensures
            match r {
                Ok(reply) => json_document(body@) matches Some(strings) && is_upload_url_reply(
                    strings,
                ) && reply@ == upload_url_reply(strings),
                Err(e) => e is JsonError && !(json_document(body@) matches Some(strings)
                    && is_upload_url_reply(strings)),
            },
    {
        match parse_json(body) {
            Ok(value) => UploadUrlResponse::from_json(&value),
            Err(e) => Err(B2Error::JsonError(e)),
        }
    }
}

impl BucketRequest {
    /// The request as a JSON document.
    pub fn to_json(&self) -> (body: Vec<u8>)
        ensures
            body@ == bucket_request_json(self.bucket_id@),
    {
        let mut body = "{\"bucketId\":".as_bytes_vec();
        push_json_string(&mut body, self.bucket_id.as_str().as_bytes());
        let mut close = "}".as_bytes_vec();
        body.append(&mut close);
        body
    }
}

} // verus!
