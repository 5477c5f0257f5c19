//! The per-connection state machine: the authentication gate, the dispatcher of
//! authenticated commands, and teardown. Each function decides; the caller performs
//! the I/O that the returned step names.
use vstd::prelude::*;
use crate::envelope::{is_e2ee_envelope, is_envelope};
use crate::identity::AuthOutcome;
use crate::models::{
    auth_request_of, auth_response_text, dm_request_of, event_text, get_pubkey_request_of,
    get_pubkey_response_text, opt_view, set_pubkey_request_of, set_pubkey_response_text, AuthRequest,
    AuthResponse, DirectMessageEvent, DirectMessageReq, GetPubkeyRequest, GetPubkeyResponse,
    SetPubkeyRequest, SetPubkeyResponse,
};
use crate::routing::{routes_after_close, AppState, ClientHandle};
use crate::wire::{frame_of, ClientMessage};
use vstd::utf8::encode_utf8;

verus! {

/// Where a connection stands.
#[derive(PartialEq, Eq, Structural)]
pub enum ConnState {
    Unauth,
    /// Authenticated as this user, for the rest of the connection.
    Auth(i64),
    Closed,
}

/// One connection: its session id, unique among the server's connections, and its state.
pub struct Session {
    pub id: u64,
    pub state: ConnState,
}

/// The two commands that authenticate.
#[derive(PartialEq, Eq, Structural)]
pub enum AuthKind {
    Login,
    Register,
}

/// What to do with a frame that arrived while unauthenticated.
pub enum UnauthStep {
    /// Write this frame to the connection; the state stays `Unauth`.
    Reply(ClientMessage),
    /// Ask the identity store, then finish with [`Session::complete_auth`].
    Authenticate(AuthKind, AuthRequest),
}

/// What to do with a frame that arrived while authenticated.
pub enum AuthedStep {
    /// Put this frame on the sender's own outbound sink.
    Reply(ClientMessage),
    /// Put this frame on the recipient's sink if the recipient is online; otherwise drop it.
    Deliver(i64, ClientMessage),
    /// Store this public key for the sender, then reply with [`set_pubkey_reply`].
    StorePubkey(String),
    /// Load the public key of this user, then reply with [`get_pubkey_reply`].
    LoadPubkey(i64),
}

/// What a connection does with one complete frame, by its state.
pub enum LineStep {
    Unauth(UnauthStep),
    Authed(AuthedStep),
    /// The connection is closed: the frame is dropped.
    Ignore,
}

/// What storing a public key came to.
#[derive(PartialEq, Eq, Structural)]
pub enum PubkeyStored {
    Stored,
    NoSuchUser,
    Failed,
}

/// What loading a public key came to.
pub enum PubkeyLoaded {
    Found(String),
    /// The user does not exist or has no key.
    Absent,
    Failed,
}

/// The mathematical value of an [`UnauthStep`]: a frame as command and data.
pub enum UnauthView {
    Reply(Seq<char>, Seq<char>),
    Authenticate(AuthKind, Seq<char>, Seq<char>),
}

/// The mathematical value of an [`AuthedStep`].
pub enum StepView {
    Reply(Seq<char>, Seq<char>),
    Deliver(i64, Seq<char>, Seq<char>),
    StorePubkey(Seq<char>),
    LoadPubkey(i64),
}

impl View for UnauthStep {
    type V = UnauthView;

    open spec fn view(&self) -> UnauthView {
        match self {
            UnauthStep::Reply(m) => UnauthView::Reply(m.command@, m.data@),
            UnauthStep::Authenticate(k, q) => UnauthView::Authenticate(*k, q.passphrase@, q.password@),
        }
    }
}

impl View for AuthedStep {
    type V = StepView;

    open spec fn view(&self) -> StepView {
        match self {
            AuthedStep::Reply(m) => StepView::Reply(m.command@, m.data@),
            AuthedStep::Deliver(t, m) => StepView::Deliver(*t, m.command@, m.data@),
            AuthedStep::StorePubkey(k) => StepView::StorePubkey(k@),
            AuthedStep::LoadPubkey(u) => StepView::LoadPubkey(*u),
        }
    }
}

/// `m` is the frame `{command, data}`.
pub open spec fn is_frame(m: ClientMessage, command: Seq<char>, data: Seq<char>) -> bool {
    m.command@ == command && m.data@ == data
}

/// What an unauthenticated connection does with the decoded frame `{c, d}`.
pub open spec fn unauth_frame_outcome(c: Seq<char>, d: Seq<char>) -> UnauthView {
    if c == "login"@ || c == "register"@ {
        let kind = if c == "login"@ {
            AuthKind::Login
        } else {
            AuthKind::Register
        };
        match auth_request_of(d) {
            Some((p, w)) => UnauthView::Authenticate(kind, p, w),
            None => UnauthView::Reply(
                "auth_response"@,
                auth_response_text(
                    false,
                    if c == "login"@ {
                        "Invalid authentication format"@
                    } else {
                        "Invalid registration format"@
                    },
                    None,
                ),
            ),
        }
    } else {
        UnauthView::Reply(
            "error"@,
            "Authentication required. Please send 'login' or 'register' command first"@,
        )
    }
}

/// What an unauthenticated connection does with the frame `line`.
pub open spec fn unauth_outcome(line: Seq<char>) -> UnauthView {
    match frame_of(line) {
        None => UnauthView::Reply("error"@, "Invalid JSON"@),
        Some((c, d)) => unauth_frame_outcome(c, d),
    }
}

/// What becomes of a `message` from `user_id` to `to` with body `body`.
pub open spec fn message_outcome(user_id: i64, require_e2ee: bool, to: i64, body: Seq<char>) -> StepView {
    if require_e2ee && !is_envelope(encode_utf8(body)) {
        StepView::Reply("error"@, "E2EE required: invalid or missing envelope"@)
    } else {
        StepView::Deliver(to, "message"@, event_text(user_id, body))
    }
}

/// What an authenticated connection of `user_id` does with the decoded frame `{c, d}`.
pub open spec fn authed_frame_outcome(user_id: i64, require_e2ee: bool, c: Seq<char>, d: Seq<char>) -> StepView {
    if c == "message"@ {
        match dm_request_of(d) {
            None => StepView::Reply("error"@, "Invalid message format"@),
            Some((to, body, _)) => message_outcome(user_id, require_e2ee, to, body),
        }
    } else if c == "set_pubkey"@ {
        match set_pubkey_request_of(d) {
            None => StepView::Reply("error"@, "Invalid set_pubkey format"@),
            Some(k) => StepView::StorePubkey(k),
        }
    } else if c == "get_pubkey"@ {
        match get_pubkey_request_of(d) {
            None => StepView::Reply("error"@, "Invalid get_pubkey format"@),
            Some(u) => StepView::LoadPubkey(u),
        }
    } else {
        StepView::Reply(c, d)
    }
}

/// What an authenticated connection of `user_id` does with the frame `line`.
pub open spec fn authed_outcome(user_id: i64, require_e2ee: bool, line: Seq<char>) -> StepView {
    match frame_of(line) {
        None => StepView::Reply("error"@, "Invalid JSON"@),
        Some((c, d)) => authed_frame_outcome(user_id, require_e2ee, c, d),
    }
}

/// The message of the reply to an authentication.
pub open spec fn auth_reply_message(kind: AuthKind, outcome: AuthOutcome) -> Seq<char> {
    match kind {
        AuthKind::Login => match outcome {
            AuthOutcome::Accepted(_) => "Authentication successful"@,
            AuthOutcome::BadCredentials => "Invalid passphrase or password"@,
            _ => "Authentication error"@,
        },
        AuthKind::Register => match outcome {
            AuthOutcome::Accepted(_) => "Registration successful"@,
            AuthOutcome::AlreadyExists => "User with this passphrase already exists"@,
            _ => "Registration failed"@,
        },
    }
}

/// The user id that an outcome authenticates.
pub open spec fn accepted_user(outcome: AuthOutcome) -> Option<i64> {
    match outcome {
        AuthOutcome::Accepted(u) => Some(u),
        _ => None,
    }
}

fn command_is(c: &String, name: &str) -> (r: bool)
    ensures
        r == (c@ == name@),
{
    let n = name.to_owned();
    *c == n
}

fn frame(command: &str, data: String) -> (r: ClientMessage)
    ensures
        r.command@ == command@,
        r.data@ == data@,
{
    ClientMessage { command: command.to_owned(), data }
}

/// The prompt written first on every new connection.
pub fn auth_prompt() -> (r: ClientMessage)
    ensures
        is_frame(
            r,
            "auth_required"@,
            "Please authenticate by sending 'login' or 'register' command with your credentials"@,
        ),
{
    ClientMessage::new(
        "auth_required",
        "Please authenticate by sending 'login' or 'register' command with your credentials",
    )
}

/// Decides what an unauthenticated connection does with one frame. Only `login` and
/// `register` reach the identity store; everything else is answered on the
/// connection and changes nothing.
pub fn unauth_step(line: &str) -> (r: UnauthStep)
    ensures
        r@ == unauth_outcome(line@),
{
    match ClientMessage::decode(line) {
        Some(msg) => unauth_frame_step(msg),
        None => UnauthStep::Reply(ClientMessage::new("error", "Invalid JSON")),
    }
}

/// Decides what an unauthenticated connection does with one decoded frame.
pub fn unauth_frame_step(msg: ClientMessage) -> (r: UnauthStep)
    ensures
        r@ == unauth_frame_outcome(msg.command@, msg.data@),
{
    let is_login = command_is(&msg.command, "login");
    if !is_login && !command_is(&msg.command, "register") {
        return UnauthStep::Reply(
            ClientMessage::new(
                "error",
                "Authentication required. Please send 'login' or 'register' command first",
            ),
        );
    }
    match AuthRequest::from_json(msg.data.as_str()) {
        Some(q) => UnauthStep::Authenticate(
            if is_login {
                AuthKind::Login
            } else {
                AuthKind::Register
            },
            q,
        ),
        None => {
            let message = if is_login {
                "Invalid authentication format".to_owned()
            } else {
                "Invalid registration format".to_owned()
            };
            let resp = AuthResponse { success: false, message, user_id: None };
            UnauthStep::Reply(frame("auth_response", resp.to_json()))
        },
    }
}

fn auth_message(kind: &AuthKind, outcome: &AuthOutcome) -> (r: String)
    ensures
        r@ == auth_reply_message(*kind, *outcome),
{
    match kind {
        AuthKind::Login => match outcome {
            AuthOutcome::Accepted(_) => "Authentication successful".to_owned(),
            AuthOutcome::BadCredentials => "Invalid passphrase or password".to_owned(),
            _ => "Authentication error".to_owned(),
        },
        AuthKind::Register => match outcome {
            AuthOutcome::Accepted(_) => "Registration successful".to_owned(),
            AuthOutcome::AlreadyExists => "User with this passphrase already exists".to_owned(),
            _ => "Registration failed".to_owned(),
        },
    }
}

impl Session {
    pub fn new(id: u64) -> (r: Session)
        ensures
            r.id == id,
            r.state == ConnState::Unauth,
    {
        Session { id, state: ConnState::Unauth }
    }

    /// Routes one frame by the connection's state: the authentication gate while
    /// unauthenticated, the dispatcher once authenticated.
    pub fn on_line(&self, require_e2ee: bool, line: &str) -> (r: LineStep)
        ensures
            match self.state {
                ConnState::Unauth => r matches LineStep::Unauth(s) && s@ == unauth_outcome(line@),
                ConnState::Auth(u) => r matches LineStep::Authed(s) && s@ == authed_outcome(
                    u,
                    require_e2ee,
                    line@,
                ),
                ConnState::Closed => r is Ignore,
            },
    {
        match self.state {
            ConnState::Unauth => LineStep::Unauth(unauth_step(line)),
            ConnState::Auth(u) => LineStep::Authed(authed_step(u, require_e2ee, line)),
            ConnState::Closed => LineStep::Ignore,
        }
    }

    /// Finishes a `login` or `register` with the identity store's outcome. On success
    /// the connection becomes authenticated and `tx`, its fresh outbound sink, becomes
    /// the user's route, replacing any earlier session (latest wins); only then is the
    /// reply made. On failure nothing changes but the reply.
    pub fn complete_auth<S>(
        &mut self,
        kind: AuthKind,
        outcome: AuthOutcome,
        table: &mut AppState<S>,
        tx: S,
    ) -> (reply: ClientMessage)
        requires
            old(self).state == ConnState::Unauth,
        ensures
            final(self).id == old(self).id,
            final(table).e2ee_required() == old(table).e2ee_required(),
            match outcome {
                AuthOutcome::Accepted(u) => final(self).state == ConnState::Auth(u)
                    && final(table).routes() == old(table).routes().insert(
                    u,
                    ClientHandle { session: old(self).id, tx },
                ),
                _ => final(self).state == ConnState::Unauth && final(table).routes() == old(
                    table,
                ).routes(),
            },
            is_frame(
                reply,
                "auth_response"@,
                auth_response_text(
                    outcome is Accepted,
                    auth_reply_message(kind, outcome),
                    accepted_user(outcome),
                ),
            ),
    {
        let message = auth_message(&kind, &outcome);
        let user_id = match outcome {
            AuthOutcome::Accepted(u) => {
                table.register(u, ClientHandle { session: self.id, tx });
                self.state = ConnState::Auth(u);
                Some(u)
            },
            _ => None,
        };
        let resp = AuthResponse { success: user_id.is_some(), message, user_id };
        frame("auth_response", resp.to_json())
    }

    /// Tears the connection down. An authenticated connection gives up its route only
    /// where the route is still its own: a later session of the same user keeps it.
    pub fn close<S>(&mut self, table: &mut AppState<S>)
        ensures
            final(self).id == old(self).id,
            final(self).state == ConnState::Closed,
            final(table).e2ee_required() == old(table).e2ee_required(),
            match old(self).state {
                ConnState::Auth(u) => final(table).routes() == routes_after_close(
                    old(table).routes(),
                    u,
                    old(self).id,
                ),
                _ => final(table).routes() == old(table).routes(),
            },
    {
        if let ConnState::Auth(u) = self.state {
            table.unregister_session(u, self.id);
        }
        self.state = ConnState::Closed;
    }
}

/// Decides what an authenticated connection of `user_id` does with one frame.
/// A `message` is delivered with its body untouched; where end-to-end encryption is
/// required, a body that is not a well-formed envelope is refused and nothing is
/// delivered. Unknown commands are echoed to the sender.
pub fn authed_step(user_id: i64, require_e2ee: bool, line: &str) -> (r: AuthedStep)
    ensures
        r@ == authed_outcome(user_id, require_e2ee, line@),
{
    match ClientMessage::decode(line) {
        Some(msg) => authed_frame_step(user_id, require_e2ee, msg),
        None => AuthedStep::Reply(ClientMessage::new("error", "Invalid JSON")),
    }
}

/// Decides what becomes of a `message` request from `user_id`: delivery with the
/// body untouched, or, where end-to-end encryption is required and the body is not
/// a well-formed envelope, the `E2EE required` error to the sender alone.
pub fn message_step(user_id: i64, require_e2ee: bool, req: DirectMessageReq) -> (r: AuthedStep)
    ensures
        r@ == message_outcome(user_id, require_e2ee, req.to_user_id, req.body@),
{
    if require_e2ee && !is_e2ee_envelope(req.body.as_str()) {
        AuthedStep::Reply(ClientMessage::new("error", "E2EE required: invalid or missing envelope"))
    } else {
        let event = DirectMessageEvent { from_user_id: user_id, body: req.body };
        AuthedStep::Deliver(req.to_user_id, frame("message", event.to_json()))
    }
}

/// Decides what an authenticated connection of `user_id` does with one decoded frame.
pub fn authed_frame_step(user_id: i64, require_e2ee: bool, msg: ClientMessage) -> (r: AuthedStep)
    ensures
        r@ == authed_frame_outcome(user_id, require_e2ee, msg.command@, msg.data@),
{
    if command_is(&msg.command, "message") {
        match DirectMessageReq::from_json(msg.data.as_str()) {
            None => AuthedStep::Reply(ClientMessage::new("error", "Invalid message format")),
            Some(req) => message_step(user_id, require_e2ee, req),
        }
    } else if command_is(&msg.command, "set_pubkey") {
        match SetPubkeyRequest::from_json(msg.data.as_str()) {
            None => AuthedStep::Reply(ClientMessage::new("error", "Invalid set_pubkey format")),
            Some(req) => AuthedStep::StorePubkey(req.pubkey),
        }
    } else if command_is(&msg.command, "get_pubkey") {
        match GetPubkeyRequest::from_json(msg.data.as_str()) {
            None => AuthedStep::Reply(ClientMessage::new("error", "Invalid get_pubkey format")),
            Some(req) => AuthedStep::LoadPubkey(req.user_id),
        }
    } else {
        AuthedStep::Reply(msg)
    }
}

/// The reply to `set_pubkey` once the store has answered.
pub fn set_pubkey_reply(outcome: PubkeyStored) -> (r: ClientMessage)
    ensures
        is_frame(
            r,
            "set_pubkey_response"@,
            match outcome {
                PubkeyStored::Stored => set_pubkey_response_text(true, "Pubkey stored"@),
                PubkeyStored::NoSuchUser => set_pubkey_response_text(false, "User not found"@),
                PubkeyStored::Failed => set_pubkey_response_text(false, "Failed to store pubkey"@),
            },
        ),
{
    let resp = match outcome {
        PubkeyStored::Stored => SetPubkeyResponse { success: true, message: "Pubkey stored".to_owned() },
        PubkeyStored::NoSuchUser => SetPubkeyResponse {
            success: false,
            message: "User not found".to_owned(),
        },
        PubkeyStored::Failed => SetPubkeyResponse {
            success: false,
            message: "Failed to store pubkey".to_owned(),
        },
    };
    frame("set_pubkey_response", resp.to_json())
}

/// The reply to `get_pubkey{user_id}` once the store has answered. A key that was
/// found is returned exactly as stored.
pub fn get_pubkey_reply(user_id: i64, loaded: PubkeyLoaded) -> (r: ClientMessage)
    ensures
        is_frame(
            r,
            "get_pubkey_response"@,
            match loaded {
                PubkeyLoaded::Found(k) => get_pubkey_response_text(true, "OK"@, Some(user_id), Some(k@)),
                PubkeyLoaded::Absent => get_pubkey_response_text(
                    false,
                    "User not found or no pubkey"@,
                    Some(user_id),
                    None,
                ),
                PubkeyLoaded::Failed => get_pubkey_response_text(
                    false,
                    "Failed to load pubkey"@,
                    Some(user_id),
                    None,
                ),
            },
        ),
{
    let resp = match loaded {
        PubkeyLoaded::Found(k) => GetPubkeyResponse {
            success: true,
            message: "OK".to_owned(),
            user_id: Some(user_id),
            pubkey: Some(k),
        },
        PubkeyLoaded::Absent => GetPubkeyResponse {
            success: false,
            message: "User not found or no pubkey".to_owned(),
            user_id: Some(user_id),
            pubkey: None,
        },
        PubkeyLoaded::Failed => GetPubkeyResponse {
            success: false,
            message: "Failed to load pubkey".to_owned(),
            user_id: Some(user_id),
            pubkey: None,
        },
    };
    frame("get_pubkey_response", resp.to_json())
}

} // verus!
