//! The exchange with the remote copy: the requests that are sent, and what is
//! made of the replies. Sending is left to the caller; nothing here touches
//! the network.

use crate::codec::text_store;
use crate::document::{BookmarkStore, FolderView};
use crate::json::{
    field, json_parsed, json_pretty_text, lemma_object_tree, member_trees, text_field, Json,
    JsonValue,
};
use crate::text::{decimal, decimal_text, strip_white_space, without_white_space};
use vstd::prelude::*;
use vstd::utf8::{decode_utf8, encode_utf8, valid_utf8};

verus! {

/// The text that base64 gives for bytes: standard alphabet, padded.
pub uninterp spec fn base64_text(bytes: Seq<u8>) -> Seq<char>;

/// The bytes that a base64 text stands for, where it is one.
pub uninterp spec fn base64_bytes(text: Seq<char>) -> Option<Seq<u8>>;

/// `Engine::encode` of base64 on its `STANDARD` engine: the padded text for
/// the bytes, which depends on the bytes alone. It would stop only on a
/// length that no slice has.
#[verifier::external_body]
pub(crate) fn encode_base64(bytes: &[u8]) -> (text: String)
    ensures
        text@ == base64_text(bytes@),
{
    base64::Engine::encode(&base64::engine::general_purpose::STANDARD, bytes)
}

/// `Engine::decode` of base64 on its `STANDARD` engine: the bytes where the
/// text is padded standard base64, nothing where it is not. Which of the two
/// depends on the text alone.
#[verifier::external_body]
pub(crate) fn decode_base64(text: &str) -> (bytes: Option<Vec<u8>>)
    ensures
        bytes is Some == base64_bytes(text@) is Some,
        bytes is Some ==> bytes->0@ == base64_bytes(text@)->0,
{
    match base64::Engine::decode(&base64::engine::general_purpose::STANDARD, text) {
        Ok(bytes) => Some(bytes),
        Err(_) => None,
    }
}

/// `String::from_utf8` of std: the text that the bytes spell where they are
/// UTF-8, nothing where they are not.
#[verifier::external_body]
pub(crate) fn text_from_utf8(bytes: Vec<u8>) -> (text: Option<String>)
    ensures
        text is Some == valid_utf8(bytes@),
        text is Some ==> text->0@ == decode_utf8(bytes@),
{
    match String::from_utf8(bytes) {
        Ok(text) => Some(text),
        Err(_) => None,
    }
}

/// What was wrong with a reply that could not be used.
#[derive(Debug, Clone, Copy, PartialEq, Eq, Structural)]
pub enum Malformed {
    /// The reply's body could not be read.
    Unreadable,
    /// The body is not JSON, or lacks the new version after a write.
    Response,
    /// The reply names no version.
    MissingSha,
    /// The reply holds no content.
    MissingContent,
    /// The content is not base64.
    NotBase64,
    /// The content's bytes are not UTF-8.
    NotUtf8,
    /// The content is not a bookmark store.
    NotBookmarks,
}

/// Why an exchange with the remote failed.
#[derive(Debug, PartialEq, Eq)]
pub enum RemoteError {
    /// The credential is wrong or has expired.
    Unauthorized,
    /// The location or the file is not there.
    NotFound,
    /// The file has another version than the one the write named.
    Conflict,
    /// The remote did not accept the request as it was formed.
    ValidationError,
    /// The remote did not answer in time.
    Timeout,
    /// The remote could not be reached: its host was not found, or it was
    /// found and no connection came about.
    Unreachable { host_found: bool },
    /// The reply could not be used.
    MalformedContent(Malformed),
    /// Anything else, with its description.
    Other(String),
}

/// What a failure is: the same cases, with the description as a sequence.
pub enum RemoteFault {
    Unauthorized,
    NotFound,
    Conflict,
    ValidationError,
    Timeout,
    Unreachable { host_found: bool },
    MalformedContent(Malformed),
    Other(Seq<char>),
}

impl View for RemoteError {
    type V = RemoteFault;

    open spec fn view(&self) -> RemoteFault {
        match self {
            RemoteError::Unauthorized => RemoteFault::Unauthorized,
            RemoteError::NotFound => RemoteFault::NotFound,
            RemoteError::Conflict => RemoteFault::Conflict,
            RemoteError::ValidationError => RemoteFault::ValidationError,
            RemoteError::Timeout => RemoteFault::Timeout,
            RemoteError::Unreachable { host_found } => RemoteFault::Unreachable {
                host_found: *host_found,
            },
            RemoteError::MalformedContent(malformed) => RemoteFault::MalformedContent(*malformed),
            RemoteError::Other(message) => RemoteFault::Other(message@),
        }
    }
}

/// The short message that the user is shown for a failure.
pub open spec fn fault_message(fault: RemoteFault) -> Seq<char> {
    match fault {
        RemoteFault::Unauthorized => "Invalid or expired GitHub token"@,
        RemoteFault::NotFound => "Repository or file not found — check owner/repo"@,
        RemoteFault::Conflict => "SHA conflict — pull first, then push again"@,
        RemoteFault::ValidationError => "Validation error — check repo name format"@,
        RemoteFault::Timeout => "Request timed out — try again"@,
        RemoteFault::Unreachable { host_found } => if host_found {
            "Connection failed — check your connection"@
        } else {
            "Could not reach GitHub — check your connection"@
        },
        RemoteFault::MalformedContent(malformed) => match malformed {
            Malformed::Unreadable => "Failed to read response"@,
            Malformed::Response => "Malformed response from GitHub"@,
            Malformed::MissingSha => "Missing SHA in response"@,
            Malformed::MissingContent => "bookmarks.json not found in repository"@,
            Malformed::NotBase64 => "Failed to decode content"@,
            Malformed::NotUtf8 => "Invalid UTF-8 content"@,
            Malformed::NotBookmarks => "Failed to parse bookmarks"@,
        },
        RemoteFault::Other(message) => message,
    }
}

impl RemoteError {
    /// The short message that the user is shown for this failure.
    pub fn message(&self) -> (message: String)
        ensures
            message@ == fault_message(self@),
    {
        match self {
            RemoteError::Unauthorized => "Invalid or expired GitHub token".to_owned(),
            RemoteError::NotFound => "Repository or file not found — check owner/repo".to_owned(),
            RemoteError::Conflict => "SHA conflict — pull first, then push again".to_owned(),
            RemoteError::ValidationError => "Validation error — check repo name format".to_owned(),
            RemoteError::Timeout => "Request timed out — try again".to_owned(),
            RemoteError::Unreachable { host_found } => if *host_found {
                "Connection failed — check your connection".to_owned()
            } else {
                "Could not reach GitHub — check your connection".to_owned()
            },
            RemoteError::MalformedContent(malformed) => match malformed {
                Malformed::Unreadable => "Failed to read response".to_owned(),
                Malformed::Response => "Malformed response from GitHub".to_owned(),
                Malformed::MissingSha => "Missing SHA in response".to_owned(),
                Malformed::MissingContent => "bookmarks.json not found in repository".to_owned(),
                Malformed::NotBase64 => "Failed to decode content".to_owned(),
                Malformed::NotUtf8 => "Invalid UTF-8 content".to_owned(),
                Malformed::NotBookmarks => "Failed to parse bookmarks".to_owned(),
            },
            RemoteError::Other(message) => message.clone(),
        }
    }
}

/// What came of a request.
#[derive(Debug, PartialEq, Eq)]
pub enum Reply {
    /// The remote answered with success; this is the body.
    Body(String),
    /// The remote answered with success, and the body could not be read.
    Unreadable,
    /// The remote answered with a status that means failure.
    Status(u16),
    /// No answer came in time.
    Timeout,
    /// The remote's host was not found.
    HostNotFound,
    /// No connection to the remote came about.
    ConnectionFailed,
    /// The request failed otherwise; this is the description.
    Failed(String),
}

/// The message for a status that has no case of its own.
pub open spec fn status_message(code: u16) -> Seq<char> {
    "GitHub API error (HTTP "@ + decimal_text(code as nat) + ")"@
}

/// The failure that a reply stands for, if it is one.
pub open spec fn reply_fault(reply: Reply) -> Option<RemoteFault> {
    match reply {
        Reply::Body(_) => None,
        Reply::Unreadable => Some(RemoteFault::MalformedContent(Malformed::Unreadable)),
        Reply::Status(code) => Some(
            if code == 401 {
                RemoteFault::Unauthorized
            } else if code == 404 {
                RemoteFault::NotFound
            } else if code == 409 {
                RemoteFault::Conflict
            } else if code == 422 {
                RemoteFault::ValidationError
            } else {
                RemoteFault::Other(status_message(code))
            },
        ),
        Reply::Timeout => Some(RemoteFault::Timeout),
        Reply::HostNotFound => Some(RemoteFault::Unreachable { host_found: false }),
        Reply::ConnectionFailed => Some(RemoteFault::Unreachable { host_found: true }),
        Reply::Failed(description) => Some(RemoteFault::Other(description@)),
    }
}

impl Reply {
    /// The failure that a reply without a body stands for.
    fn fault(&self) -> (failure: RemoteError)
        requires
            !(self is Body),
        ensures
            reply_fault(*self) == Some(failure@),
    {
        match self {
            Reply::Body(_) => vstd::pervasive::unreached(),
            Reply::Unreadable => RemoteError::MalformedContent(Malformed::Unreadable),
            Reply::Status(code) => if *code == 401 {
                RemoteError::Unauthorized
            } else if *code == 404 {
                RemoteError::NotFound
            } else if *code == 409 {
                RemoteError::Conflict
            } else if *code == 422 {
                RemoteError::ValidationError
            } else {
                let message = "GitHub API error (HTTP ".to_owned().concat(
                    decimal(*code).as_str(),
                ).concat(")");
                RemoteError::Other(message)
            },
            Reply::Timeout => RemoteError::Timeout,
            Reply::HostNotFound => RemoteError::Unreachable { host_found: false },
            Reply::ConnectionFailed => RemoteError::Unreachable { host_found: true },
            Reply::Failed(description) => RemoteError::Other(description.clone()),
        }
    }

    /// The failure that this reply stands for, if it is one.
    pub fn failure(&self) -> (failure: Option<RemoteError>)
        ensures
            failure is Some == reply_fault(*self) is Some,
            failure is Some ==> failure->0@ == reply_fault(*self)->0,
    {
        match self {
            Reply::Body(_) => None,
            _ => Some(self.fault()),
        }
    }
}

/// How a request is made.
#[derive(Debug, Clone, Copy, PartialEq, Eq, Structural)]
pub enum Method {
    Get,
    Put,
}

/// A request to the remote, ready to be sent: the address, the three headers
/// and, for a write, the body.
#[derive(Debug, PartialEq, Eq)]
pub struct Request {
    pub method: Method,
    pub url: String,
    pub authorization: String,
    pub accept: String,
    pub user_agent: String,
    pub body: Option<String>,
}

/// What a request is: the same fields as sequences.
pub struct RequestView {
    pub method: Method,
    pub url: Seq<char>,
    pub authorization: Seq<char>,
    pub accept: Seq<char>,
    pub user_agent: Seq<char>,
    pub body: Option<Seq<char>>,
}

impl View for Request {
    type V = RequestView;

    open spec fn view(&self) -> RequestView {
        RequestView {
            method: self.method,
            url: self.url@,
            authorization: self.authorization@,
            accept: self.accept@,
            user_agent: self.user_agent@,
            body: match self.body {
                Some(body) => Some(body@),
                None => None,
            },
        }
    }
}

/// The address of the bookmark file in a repository.
pub open spec fn contents_url(repo: Seq<char>) -> Seq<char> {
    "https://api.github.com/repos/"@ + repo + "/contents/bookmarks.json"@
}

/// The request that reads the file, for its content or for its version.
pub open spec fn read_request_for(token: Seq<char>, repo: Seq<char>) -> RequestView {
    RequestView {
        method: Method::Get,
        url: contents_url(repo),
        authorization: "token "@ + token,
        accept: "application/vnd.github+json"@,
        user_agent: "bookmarks-browser"@,
        body: None,
    }
}

/// The request that writes the file with that body.
pub open spec fn write_request_for(
    token: Seq<char>,
    repo: Seq<char>,
    body: Seq<char>,
) -> RequestView {
    RequestView {
        method: Method::Put,
        url: contents_url(repo),
        authorization: "token "@ + token,
        accept: "application/vnd.github+json"@,
        user_agent: "bookmarks-browser"@,
        body: Some(body),
    }
}

/// What a write sends: a commit message, the file in base64 and, if the file
/// is known to exist, the version that the write replaces.
pub open spec fn write_payload_for(file: Seq<u8>, sha: Option<Seq<char>>) -> JsonValue {
    let always = seq![
        ("message"@, JsonValue::Text("Update bookmarks"@)),
        ("content"@, JsonValue::Text(base64_text(file))),
    ];
    match sha {
        Some(sha) => JsonValue::Object(always.push(("sha"@, JsonValue::Text(sha)))),
        None => JsonValue::Object(always),
    }
}

/// The text of a commit's payload, where it can be written.
pub open spec fn write_body_for(file: Seq<u8>, sha: Option<Seq<char>>) -> Option<Seq<char>> {
    json_pretty_text(write_payload_for(file, sha))
}

/// The failure of a payload that could not be written as text.
pub open spec fn encoding_fault() -> RemoteFault {
    RemoteFault::Other("Failed to encode request"@)
}

/// The view of an optional text.
pub open spec fn optional_text(text: Option<&str>) -> Option<Seq<char>> {
    match text {
        Some(text) => Some(text@),
        None => None,
    }
}

/// Builds the address of the bookmark file in a repository.
fn contents_address(repo: &str) -> (url: String)
    ensures
        url@ == contents_url(repo@),
{
    "https://api.github.com/repos/".to_owned().concat(repo).concat("/contents/bookmarks.json")
}

/// Builds the request that reads the file.
pub fn read_request(token: &str, repo: &str) -> (request: Request)
    ensures
        request@ == read_request_for(token@, repo@),
{
    Request {
        method: Method::Get,
        url: contents_address(repo),
        authorization: "token ".to_owned().concat(token),
        accept: "application/vnd.github+json".to_owned(),
        user_agent: "bookmarks-browser".to_owned(),
        body: None,
    }
}

/// Builds what a write sends for the file's text.
pub fn write_payload(bookmarks_json: &str, sha: Option<&str>) -> (payload: Json)
    ensures
        payload@ == write_payload_for(encode_utf8(bookmarks_json@), optional_text(sha)),
{
    let encoded = encode_base64(bookmarks_json.as_bytes());
    let mut members: Vec<(String, Json)> = Vec::new();
    members.push(("message".to_owned(), Json::Text("Update bookmarks".to_owned())));
    members.push(("content".to_owned(), Json::Text(encoded)));
    match sha {
        Some(sha) => {
            members.push(("sha".to_owned(), Json::Text(sha.to_owned())));
        },
        None => {},
    }
    proof {
        lemma_object_tree(members);
        assert(member_trees(members@) =~= write_payload_for(
            encode_utf8(bookmarks_json@),
            optional_text(sha),
        )->Object_0);
    }
    Json::Object(members)
}

/// Builds the request that writes the file's text over the version `sha`, or
/// as a new file where `sha` is `None`. Every text and version has such a
/// request.
pub fn write_request(token: &str, repo: &str, bookmarks_json: &str, sha: Option<&str>) -> (request:
    Result<Request, RemoteError>)
    ensures
        request is Ok,
        match write_body_for(encode_utf8(bookmarks_json@), optional_text(sha)) {
            Some(body) => request is Ok && request->Ok_0@ == write_request_for(
                token@,
                repo@,
                body,
            ),
            None => request is Err && request->Err_0@ == encoding_fault(),
        },
{
    match write_payload(bookmarks_json, sha).to_pretty_text() {
        Some(body) => Ok(
            Request {
                method: Method::Put,
                url: contents_address(repo),
                authorization: "token ".to_owned().concat(token),
                accept: "application/vnd.github+json".to_owned(),
                user_agent: "bookmarks-browser".to_owned(),
                body: Some(body),
            },
        ),
        None => Err(RemoteError::Other("Failed to encode request".to_owned())),
    }
}

/// The version that a reply to a read names, if it names one.
pub open spec fn version_of(reply: JsonValue) -> Option<Seq<char>> {
    text_field(reply, "sha"@)
}

/// The version that a reply to a write names for what was written.
pub open spec fn new_version_of(reply: JsonValue) -> Option<Seq<char>> {
    match field(reply, "content"@) {
        Some(content) => text_field(content, "sha"@),
        None => None,
    }
}

/// The version and the content, as sent, that a reply to a read holds. The
/// version is looked for first.
pub open spec fn remote_file_of(reply: JsonValue) -> Result<(Seq<char>, Seq<char>), RemoteFault> {
    match text_field(reply, "sha"@) {
        None => Err(RemoteFault::MalformedContent(Malformed::MissingSha)),
        Some(sha) => match text_field(reply, "content"@) {
            None => Err(RemoteFault::MalformedContent(Malformed::MissingContent)),
            Some(content) => Ok((sha, content)),
        },
    }
}

/// The store that bytes spell: they are UTF-8, and their text is a store.
pub open spec fn bytes_store(bytes: Seq<u8>) -> Result<Seq<FolderView>, RemoteFault> {
    if !valid_utf8(bytes) {
        Err(RemoteFault::MalformedContent(Malformed::NotUtf8))
    } else {
        match text_store(decode_utf8(bytes)) {
            Some(folders) => Ok(folders),
            None => Err(RemoteFault::MalformedContent(Malformed::NotBookmarks)),
        }
    }
}

/// The store that a reply's content holds: base64, broken into lines or not,
/// of a store's text.
pub open spec fn content_store(content: Seq<char>) -> Result<Seq<FolderView>, RemoteFault> {
    match base64_bytes(without_white_space(content)) {
        Some(bytes) => bytes_store(bytes),
        None => Err(RemoteFault::MalformedContent(Malformed::NotBase64)),
    }
}

/// What a probe for the file's version found: the version of the file that
/// is there, or `None` where the remote says that the file does not exist
/// yet, or why the probe failed. A reply for a file that is there and names
/// no version is a failure, not a file that is missing.
pub open spec fn probed(reply: Reply) -> Result<Option<Seq<char>>, RemoteFault> {
    match reply {
        Reply::Body(body) => match json_parsed(body@) {
            Some(value) => match version_of(value) {
                Some(sha) => Ok(Some(sha)),
                None => Err(RemoteFault::MalformedContent(Malformed::MissingSha)),
            },
            None => Err(RemoteFault::MalformedContent(Malformed::Response)),
        },
        Reply::Status(code) => if code == 404 {
            Ok(None)
        } else {
            Err(reply_fault(reply)->0)
        },
        _ => Err(reply_fault(reply)->0),
    }
}

/// What a write came to: the new version, or why the write failed.
pub open spec fn stored(reply: Reply) -> Result<Seq<char>, RemoteFault> {
    match reply {
        Reply::Body(body) => match json_parsed(body@) {
            Some(value) => match new_version_of(value) {
                Some(sha) => Ok(sha),
                None => Err(RemoteFault::MalformedContent(Malformed::Response)),
            },
            None => Err(RemoteFault::MalformedContent(Malformed::Response)),
        },
        _ => Err(reply_fault(reply)->0),
    }
}

/// What a read came to: the remote store and its version, or why the read
/// failed.
pub open spec fn fetched(reply: Reply) -> Result<(Seq<FolderView>, Seq<char>), RemoteFault> {
    match reply {
        Reply::Body(body) => match json_parsed(body@) {
            Some(value) => match remote_file_of(value) {
                Ok((sha, content)) => match content_store(content) {
                    Ok(folders) => Ok((folders, sha)),
                    Err(fault) => Err(fault),
                },
                Err(fault) => Err(fault),
            },
            None => Err(RemoteFault::MalformedContent(Malformed::Response)),
        },
        _ => Err(reply_fault(reply)->0),
    }
}

/// Finds the version that a reply to a read names.
pub fn version_in(reply: &Json) -> (sha: Option<String>)
    ensures
        sha is Some == version_of(reply@) is Some,
        sha is Some ==> sha->0@ == version_of(reply@)->0,
{
    match reply.text_at("sha") {
        Some(sha) => Some(sha.clone()),
        None => None,
    }
}

/// Finds the version that a reply to a write names for what was written.
pub fn new_version_in(reply: &Json) -> (sha: Option<String>)
    ensures
        sha is Some == new_version_of(reply@) is Some,
        sha is Some ==> sha->0@ == new_version_of(reply@)->0,
{
    match reply.get("content") {
        Some(content) => match content.text_at("sha") {
            Some(sha) => Some(sha.clone()),
            None => None,
        },
        None => None,
    }
}

/// Finds the version and the content in a reply to a read.
pub fn remote_file_in(reply: &Json) -> (file: Result<(String, String), RemoteError>)
    ensures
        file is Ok == remote_file_of(reply@) is Ok,
        file is Ok ==> file->Ok_0.0@ == remote_file_of(reply@)->Ok_0.0 && file->Ok_0.1@
            == remote_file_of(reply@)->Ok_0.1,
        file is Err ==> file->Err_0@ == remote_file_of(reply@)->Err_0,
{
    match reply.text_at("sha") {
        None => Err(RemoteError::MalformedContent(Malformed::MissingSha)),
        Some(sha) => match reply.text_at("content") {
            None => Err(RemoteError::MalformedContent(Malformed::MissingContent)),
            Some(content) => Ok((sha.clone(), content.clone())),
        },
    }
}

/// Reads decoded bytes as a store.
pub fn store_from_bytes(bytes: Vec<u8>) -> (store: Result<BookmarkStore, RemoteError>)
    ensures
        store is Ok == bytes_store(bytes@) is Ok,
        store is Ok ==> store->Ok_0@ == bytes_store(bytes@)->Ok_0,
        store is Err ==> store->Err_0@ == bytes_store(bytes@)->Err_0,
{
    match text_from_utf8(bytes) {
        None => Err(RemoteError::MalformedContent(Malformed::NotUtf8)),
        Some(text) => match BookmarkStore::from_text(text.as_str()) {
            Some(store) => Ok(store),
            None => Err(RemoteError::MalformedContent(Malformed::NotBookmarks)),
        },
    }
}

/// Reads a reply's content as a store: takes out the line breaks, decodes
/// the base64, and reads the text.
pub fn store_from_content(content: &str) -> (store: Result<BookmarkStore, RemoteError>)
    ensures
        store is Ok == content_store(content@) is Ok,
        store is Ok ==> store->Ok_0@ == content_store(content@)->Ok_0,
        store is Err ==> store->Err_0@ == content_store(content@)->Err_0,
{
    let cleaned = strip_white_space(content);
    match decode_base64(cleaned.as_str()) {
        Some(bytes) => store_from_bytes(bytes),
        None => Err(RemoteError::MalformedContent(Malformed::NotBase64)),
    }
}

/// Reads the reply to a probe for the file's version. A reply that the file
/// is not there is no failure: there is no version yet. A reply for a file
/// that is there gives its version, or fails where it names none.
pub fn probed_version(reply: &Reply) -> (version: Result<Option<String>, RemoteError>)
    ensures
        version is Ok == probed(*reply) is Ok,
        version is Ok ==> (version->Ok_0 is Some == probed(*reply)->Ok_0 is Some),
        version is Ok && version->Ok_0 is Some ==> version->Ok_0->0@ == probed(*reply)->Ok_0->0,
        version is Err ==> version->Err_0@ == probed(*reply)->Err_0,
{
    match reply {
        Reply::Body(body) => match Json::parse(body.as_str()) {
            Some(json) => match version_in(&json) {
                Some(sha) => Ok(Some(sha)),
                None => Err(RemoteError::MalformedContent(Malformed::MissingSha)),
            },
            None => Err(RemoteError::MalformedContent(Malformed::Response)),
        },
        Reply::Status(code) => if *code == 404 {
            Ok(None)
        } else {
            Err(reply.fault())
        },
        _ => Err(reply.fault()),
    }
}

/// Reads the reply to a write: the version of what was written.
pub fn stored_version(reply: &Reply) -> (version: Result<String, RemoteError>)
    ensures
        version is Ok == stored(*reply) is Ok,
        version is Ok ==> version->Ok_0@ == stored(*reply)->Ok_0,
        version is Err ==> version->Err_0@ == stored(*reply)->Err_0,
{
    match reply {
        Reply::Body(body) => match Json::parse(body.as_str()) {
            Some(json) => match new_version_in(&json) {
                Some(sha) => Ok(sha),
                None => Err(RemoteError::MalformedContent(Malformed::Response)),
            },
            None => Err(RemoteError::MalformedContent(Malformed::Response)),
        },
        _ => Err(reply.fault()),
    }
}

/// Reads the reply to a read: the remote store and its version. A reply
/// gives a whole store or a failure, never a part of one.
pub fn fetched_store(reply: &Reply) -> (pulled: Result<(BookmarkStore, String), RemoteError>)
    ensures
        pulled is Ok == fetched(*reply) is Ok,
        pulled is Ok ==> pulled->Ok_0.0@ == fetched(*reply)->Ok_0.0 && pulled->Ok_0.1@ == fetched(
            *reply,
        )->Ok_0.1,
        pulled is Err ==> pulled->Err_0@ == fetched(*reply)->Err_0,
{
    match reply {
        Reply::Body(body) => match Json::parse(body.as_str()) {
            Some(json) => match remote_file_in(&json) {
                Ok((sha, content)) => match store_from_content(content.as_str()) {
                    Ok(store) => Ok((store, sha)),
                    Err(failure) => Err(failure),
                },
                Err(failure) => Err(failure),
            },
            None => Err(RemoteError::MalformedContent(Malformed::Response)),
        },
        _ => Err(reply.fault()),
    }
}

/// What a write sends next.
#[derive(Debug, PartialEq, Eq)]
pub enum StoreStep {
    /// Ask for the file's version first: the caller knows none.
    Probe(Request),
    /// Write over the version that is known.
    Write(Request),
}

/// The write of a file over version `sha`, or the failure to form it.
pub open spec fn write_step(
    token: Seq<char>,
    repo: Seq<char>,
    file: Seq<u8>,
    sha: Option<Seq<char>>,
) -> Result<RequestView, RemoteFault> {
    match write_body_for(file, sha) {
        Some(body) => Ok(write_request_for(token, repo, body)),
        None => Err(encoding_fault()),
    }
}

/// What a write does once the probe for the version has been answered: it
/// gives up where the probe failed, and else writes over the version that
/// the probe found, or a new file where it found none.
pub open spec fn write_after_probe(
    token: Seq<char>,
    repo: Seq<char>,
    file: Seq<u8>,
    probe: Reply,
) -> Result<RequestView, RemoteFault> {
    match probed(probe) {
        Ok(found) => write_step(token, repo, file, found),
        Err(fault) => Err(fault),
    }
}

/// Starts a write of the file's text. With a version at hand the write goes
/// out at once, over that version. With none, the file's version is asked
/// for first, so that a file made meanwhile is not overwritten blindly.
pub fn begin_store(token: &str, repo: &str, bookmarks_json: &str, sha: Option<&str>) -> (step:
    Result<StoreStep, RemoteError>)
    ensures
        step is Ok,
        sha is None ==> step is Ok && step->Ok_0 is Probe && step->Ok_0->Probe_0@
            == read_request_for(token@, repo@),
        sha is Some ==> match write_step(
            token@,
            repo@,
            encode_utf8(bookmarks_json@),
            optional_text(sha),
        ) {
            Ok(request) => step is Ok && step->Ok_0 is Write && step->Ok_0->Write_0@ == request,
            Err(fault) => step is Err && step->Err_0@ == fault,
        },
{
    match sha {
        None => Ok(StoreStep::Probe(read_request(token, repo))),
        Some(_) => match write_request(token, repo, bookmarks_json, sha) {
            Ok(request) => Ok(StoreStep::Write(request)),
            Err(failure) => Err(failure),
        },
    }
}

/// Goes on with a write once the probe for the version has been answered.
pub fn continue_store(token: &str, repo: &str, bookmarks_json: &str, probe: &Reply) -> (request:
    Result<Request, RemoteError>)
    ensures
        request is Ok == write_after_probe(token@, repo@, encode_utf8(bookmarks_json@), *probe)
            is Ok,
        request is Ok ==> request->Ok_0@ == write_after_probe(
            token@,
            repo@,
            encode_utf8(bookmarks_json@),
            *probe,
        )->Ok_0,
        request is Err ==> request->Err_0@ == write_after_probe(
            token@,
            repo@,
            encode_utf8(bookmarks_json@),
            *probe,
        )->Err_0,
{
    match probed_version(probe) {
        Ok(found) => match found {
            Some(sha) => write_request(token, repo, bookmarks_json, Some(sha.as_str())),
            None => write_request(token, repo, bookmarks_json, None),
        },
        Err(failure) => Err(failure),
    }
}

/// A reply whose body cannot be used gives `MalformedContent` and nothing
/// else: no version from a probe, no new version from a write, and from a
/// read neither a store nor a part of one.
pub proof fn lemma_unusable_body_is_malformed(body: String)
    ensures
        probed(Reply::Body(body)) is Err ==> probed(Reply::Body(body))->Err_0 is MalformedContent,
        stored(Reply::Body(body)) is Err ==> stored(Reply::Body(body))->Err_0 is MalformedContent,
        fetched(Reply::Body(body)) is Err ==> fetched(Reply::Body(body))->Err_0
            is MalformedContent,
{
}

/// A reply without a body gives its failure, whatever was asked; only a
/// probe takes the answer that the file is not there for an answer.
pub proof fn lemma_failed_reply_is_passed_on(reply: Reply)
    requires
        !(reply is Body),
    ensures
        stored(reply) == Err::<Seq<char>, RemoteFault>(reply_fault(reply)->0),
        fetched(reply) == Err::<(Seq<FolderView>, Seq<char>), RemoteFault>(reply_fault(reply)->0),
        reply != Reply::Status(404) ==> probed(reply) == Err::<Option<Seq<char>>, RemoteFault>(
            reply_fault(reply)->0,
        ),
{
}

/// A stale version is refused: where the remote answers a write with the
/// status for a version mismatch, the write comes to `Conflict`, and the
/// message tells the user to pull first.
pub proof fn lemma_stale_write_is_conflict()
    ensures
        stored(Reply::Status(409)) == Err::<Seq<char>, RemoteFault>(RemoteFault::Conflict),
        fault_message(RemoteFault::Conflict) == "SHA conflict — pull first, then push again"@,
{
}

/// A probe says that there is no version exactly when the remote says that
/// the file is not there: a file that is there gives its version, and every
/// other reply a failure.
pub proof fn lemma_no_version_means_no_file(reply: Reply)
    ensures
        probed(reply) == Ok::<Option<Seq<char>>, RemoteFault>(None) <==> reply == Reply::Status(
            404,
        ),
        probed(reply) is Ok && probed(reply)->Ok_0 is Some ==> reply is Body && json_parsed(
            reply->Body_0@,
        ) is Some && version_of(json_parsed(reply->Body_0@)->0) == probed(reply)->Ok_0,
{
}

/// A probe that finds no file is no failure: the write that follows makes
/// the file.
pub proof fn lemma_first_write_names_no_version(token: Seq<char>, repo: Seq<char>, file: Seq<u8>)
    ensures
        probed(Reply::Status(404)) == Ok::<Option<Seq<char>>, RemoteFault>(None),
        write_after_probe(token, repo, file, Reply::Status(404)) == write_step(
            token,
            repo,
            file,
            None,
        ),
{
}

} // verus!
