//! The payloads carried in a frame's `data`, and how each is read or written.
use vstd::prelude::*;
use vstd::string::*;
use crate::json::{json_member, json_quoted, read_member, FieldValue, JsonField};
use crate::text::{bool_text, opt_int_text, opt_quoted, push_bool, push_int, push_opt_int, push_quoted, int_text};
use crate::wire::{read_text_member, text_member};

verus! {

/// Credentials of `login` and `register`.
pub struct AuthRequest {
    pub passphrase: String,
    pub password: String,
}

/// The reply to `login` and `register`.
pub struct AuthResponse {
    pub success: bool,
    pub message: String,
    pub user_id: Option<i64>,
}

/// A `message` request: an opaque body for one recipient.
pub struct DirectMessageReq {
    pub to_user_id: i64,
    pub body: String,
    pub saved: Option<bool>,
}

/// What the recipient of a `message` receives.
pub struct DirectMessageEvent {
    pub from_user_id: i64,
    pub body: String,
}

/// A request to change the saved flag of a stored message.
pub struct SaveRequest {
    pub message_id: i64,
    /// Taken as `true` when omitted.
    pub saved: Option<bool>,
}

/// The reply to a [`SaveRequest`].
pub struct SaveResponse {
    pub success: bool,
    pub message: String,
    pub message_id: Option<i64>,
    pub saved: Option<bool>,
}

/// A `set_pubkey` request: the sender's own public key.
pub struct SetPubkeyRequest {
    pub pubkey: String,
}

/// The reply to `set_pubkey`.
pub struct SetPubkeyResponse {
    pub success: bool,
    pub message: String,
}

/// A `get_pubkey` request.
pub struct GetPubkeyRequest {
    pub user_id: i64,
}

/// The reply to `get_pubkey`.
pub struct GetPubkeyResponse {
    pub success: bool,
    pub message: String,
    pub user_id: Option<i64>,
    pub pubkey: Option<String>,
}

/// A client's view of the outcome of an authentication.
pub struct LoginResponse {
    pub success: bool,
    pub message: String,
    pub user_id: Option<i64>,
}

/// A client's view of the outcome of a send.
pub struct SendResult {
    pub success: bool,
    pub message: String,
}

/// The server's configuration.
pub struct Args {
    /// TCP port to listen on.
    pub port: u16,
    /// Path of the PEM certificate chain.
    pub tls_cert: String,
    /// Path of the PEM private key (PKCS#8 or RSA).
    pub tls_key: String,
    /// Whether a `message` body must be a well-formed encrypted envelope.
    pub require_e2ee: bool,
}

/// Passphrase and password of an authentication payload.
pub open spec fn auth_request_of(data: Seq<char>) -> Option<(Seq<char>, Seq<char>)> {
    match (text_member(data, "passphrase"@), text_member(data, "password"@)) {
        (Some(a), Some(b)) => Some((a, b)),
        _ => None,
    }
}

/// Recipient, body and saved flag of a `message` payload. The flag may be absent or
/// `null`; any other value than a boolean makes the payload malformed.
pub open spec fn dm_request_of(data: Seq<char>) -> Option<(i64, Seq<char>, Option<bool>)> {
    match (json_member(data, "to_user_id"@), text_member(data, "body"@), json_member(data, "saved"@)) {
        (Some(FieldValue::Int(to)), Some(body), Some(saved)) => match saved {
            FieldValue::Missing => Some((to, body, None)),
            FieldValue::Null => Some((to, body, None)),
            FieldValue::Bool(b) => Some((to, body, Some(b))),
            _ => None,
        },
        _ => None,
    }
}

/// The key of a `set_pubkey` payload.
pub open spec fn set_pubkey_request_of(data: Seq<char>) -> Option<Seq<char>> {
    text_member(data, "pubkey"@)
}

/// The user of a `get_pubkey` payload.
pub open spec fn get_pubkey_request_of(data: Seq<char>) -> Option<i64> {
    match json_member(data, "user_id"@) {
        Some(FieldValue::Int(n)) => Some(n),
        _ => None,
    }
}

pub open spec fn auth_response_text(success: bool, message: Seq<char>, user_id: Option<i64>) -> Seq<char> {
    "{\"success\":"@ + bool_text(success) + ",\"message\":"@ + json_quoted(message) + ",\"user_id\":"@
        + opt_int_text(user_id) + "}"@
}

pub open spec fn event_text(from_user_id: i64, body: Seq<char>) -> Seq<char> {
    "{\"from_user_id\":"@ + int_text(from_user_id as int) + ",\"body\":"@ + json_quoted(body) + "}"@
}

pub open spec fn set_pubkey_response_text(success: bool, message: Seq<char>) -> Seq<char> {
    "{\"success\":"@ + bool_text(success) + ",\"message\":"@ + json_quoted(message) + "}"@
}

pub open spec fn get_pubkey_response_text(
    success: bool,
    message: Seq<char>,
    user_id: Option<i64>,
    pubkey: Option<Seq<char>>,
) -> Seq<char> {
    "{\"success\":"@ + bool_text(success) + ",\"message\":"@ + json_quoted(message) + ",\"user_id\":"@
        + opt_int_text(user_id) + ",\"pubkey\":"@ + opt_quoted(pubkey) + "}"@
}

/// The view of an optional string.
pub open spec fn opt_view(o: Option<String>) -> Option<Seq<char>> {
    match o {
        Some(s) => Some(s@),
        None => None,
    }
}

impl AuthRequest {
    pub fn from_json(data: &str) -> (r: Option<AuthRequest>)
        ensures
            match r {
                Some(q) => auth_request_of(data@) == Some((q.passphrase@, q.password@)),
                None => auth_request_of(data@).is_none(),
            },
    {
        let passphrase = read_text_member(data, "passphrase");
        let password = read_text_member(data, "password");
        match (passphrase, password) {
            (Some(passphrase), Some(password)) => Some(AuthRequest { passphrase, password }),
            _ => None,
        }
    }
}

impl DirectMessageReq {
    pub fn from_json(data: &str) -> (r: Option<DirectMessageReq>)
        ensures
            match r {
                Some(q) => dm_request_of(data@) == Some((q.to_user_id, q.body@, q.saved)),
                None => dm_request_of(data@).is_none(),
            },
    {
        let to = read_member(data, "to_user_id");
        let body = read_text_member(data, "body");
        let saved = read_member(data, "saved");
        match (to, body, saved) {
            (Some(JsonField::Int(to_user_id)), Some(body), Some(saved)) => match saved {
                JsonField::Missing => Some(DirectMessageReq { to_user_id, body, saved: None }),
                JsonField::Null => Some(DirectMessageReq { to_user_id, body, saved: None }),
                JsonField::Bool(b) => Some(DirectMessageReq { to_user_id, body, saved: Some(b) }),
                _ => None,
            },
            _ => None,
        }
    }
}

impl SetPubkeyRequest {
    pub fn from_json(data: &str) -> (r: Option<SetPubkeyRequest>)
        ensures
            match r {
                Some(q) => set_pubkey_request_of(data@) == Some(q.pubkey@),
                None => set_pubkey_request_of(data@).is_none(),
            },
    {
        match read_text_member(data, "pubkey") {
            Some(pubkey) => Some(SetPubkeyRequest { pubkey }),
            None => None,
        }
    }
}

impl GetPubkeyRequest {
    pub fn from_json(data: &str) -> (r: Option<GetPubkeyRequest>)
        ensures
            match r {
                Some(q) => get_pubkey_request_of(data@) == Some(q.user_id),
                None => get_pubkey_request_of(data@).is_none(),
            },
    {
        match read_member(data, "user_id") {
            Some(JsonField::Int(user_id)) => Some(GetPubkeyRequest { user_id }),
            _ => None,
        }
    }
}

impl AuthResponse {
    pub fn to_json(&self) -> (r: String)
        ensures
            r@ == auth_response_text(self.success, self.message@, self.user_id),
    {
        let mut out = String::new();
        out.append("{\"success\":");
        push_bool(&mut out, self.success);
        out.append(",\"message\":");
        push_quoted(&mut out, self.message.as_str());
        out.append(",\"user_id\":");
        push_opt_int(&mut out, self.user_id);
        out.append("}");
        assert(out@ =~= auth_response_text(self.success, self.message@, self.user_id));
        out
    }
}

impl DirectMessageEvent {
    pub fn to_json(&self) -> (r: String)
        ensures
            r@ == event_text(self.from_user_id, self.body@),
    {
        let mut out = String::new();
        out.append("{\"from_user_id\":");
        push_int(&mut out, self.from_user_id);
        out.append(",\"body\":");
        push_quoted(&mut out, self.body.as_str());
        out.append("}");
        assert(out@ =~= event_text(self.from_user_id, self.body@));
        out
    }
}

impl SetPubkeyResponse {
    pub fn to_json(&self) -> (r: String)
        ensures
            r@ == set_pubkey_response_text(self.success, self.message@),
    {
        let mut out = String::new();
        out.append("{\"success\":");
        push_bool(&mut out, self.success);
        out.append(",\"message\":");
        push_quoted(&mut out, self.message.as_str());
        out.append("}");
        assert(out@ =~= set_pubkey_response_text(self.success, self.message@));
        out
    }
}

impl GetPubkeyResponse {
    pub fn to_json(&self) -> (r: String)
        ensures
            r@ == get_pubkey_response_text(self.success, self.message@, self.user_id, opt_view(self.pubkey)),
    {
        let mut out = String::new();
        out.append("{\"success\":");
        push_bool(&mut out, self.success);
        out.append(",\"message\":");
        push_quoted(&mut out, self.message.as_str());
        out.append(",\"user_id\":");
        push_opt_int(&mut out, self.user_id);
        out.append(",\"pubkey\":");
        match &self.pubkey {
            Some(k) => push_quoted(&mut out, k.as_str()),
            None => out.append("null"),
        }
        out.append("}");
        assert(out@ =~= get_pubkey_response_text(
            self.success,
            self.message@,
            self.user_id,
            opt_view(self.pubkey),
        ));
        out
    }
}

} // verus!
