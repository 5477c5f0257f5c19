//! Properties of the server core that hold over all inputs, stated over the
//! deciders' spec functions and proved.
use vstd::prelude::*;
use crate::envelope::is_envelope;
use crate::models::{dm_request_of, event_text, get_pubkey_request_of, set_pubkey_request_of};
use crate::routing::{routes_after_close, ClientHandle};
use crate::session::{authed_frame_outcome, authed_outcome, unauth_outcome, StepView, UnauthView};
use crate::wire::frame_of;
use vstd::utf8::encode_utf8;

verus! {

/// A `message` whose body is a well-formed envelope is delivered to the named
/// recipient, under either policy, in a frame that carries the sender's id and the
/// body exactly as it was sent.
/// (`data` is the frame's payload; `to`, `body` and `saved` are what it holds.)
pub proof fn opaque_payload(
    user_id: i64,
    require_e2ee: bool,
    line: Seq<char>,
    data: Seq<char>,
    to: i64,
    body: Seq<char>,
    saved: Option<bool>,
)
    requires
        frame_of(line) == Some(("message"@, data)),
        dm_request_of(data) == Some((to, body, saved)),
        is_envelope(encode_utf8(body)),
    ensures
        authed_outcome(user_id, require_e2ee, line) == StepView::Deliver(
            to,
            "message"@,
            event_text(user_id, body),
        ),
{
}

/// After user `u` authenticates again with a new session, the route of `u` leads to
/// the new session, and stays there when any earlier session of `u` ends.
pub proof fn latest_wins<S>(
    routes: Map<i64, ClientHandle<S>>,
    u: i64,
    new_handle: ClientHandle<S>,
    earlier_session: u64,
)
    requires
        earlier_session != new_handle.session,
    ensures
        routes.insert(u, new_handle).contains_key(u),
        routes.insert(u, new_handle)[u] == new_handle,
        routes_after_close(routes.insert(u, new_handle), u, earlier_session) == routes.insert(
            u,
            new_handle,
        ),
{
}

/// While unauthenticated, every frame other than a well-formed `login` or `register`
/// is answered on the connection alone: it never reaches the identity store, and a
/// command other than those two is refused with the authentication error.
pub proof fn auth_gating(line: Seq<char>)
    ensures
        unauth_outcome(line) is Authenticate ==> frame_of(line).is_some() && (frame_of(line).unwrap().0
            == "login"@ || frame_of(line).unwrap().0 == "register"@),
        frame_of(line).is_some() && frame_of(line).unwrap().0 != "login"@ && frame_of(line).unwrap().0
            != "register"@ ==> unauth_outcome(line) == UnauthView::Reply(
            "error"@,
            "Authentication required. Please send 'login' or 'register' command first"@,
        ),
{
}

/// With end-to-end encryption required, a `message` whose body is not a well-formed
/// envelope is delivered to nobody, and the sender gets the `E2EE required` error.
/// (`data` is the frame's payload; `to`, `body` and `saved` are what it holds.)
pub proof fn e2ee_enforcement(
    user_id: i64,
    line: Seq<char>,
    data: Seq<char>,
    to: i64,
    body: Seq<char>,
    saved: Option<bool>,
)
    requires
        frame_of(line) == Some(("message"@, data)),
        dm_request_of(data) == Some((to, body, saved)),
        !is_envelope(encode_utf8(body)),
    ensures
        authed_outcome(user_id, true, line) == StepView::Reply(
            "error"@,
            "E2EE required: invalid or missing envelope"@,
        ),
        !(authed_outcome(user_id, true, line) is Deliver),
{
}

/// When a session ends, the route of every other session is left as it was: only a
/// route that points to the ending session itself can go.
pub proof fn connection_isolation<S>(
    routes: Map<i64, ClientHandle<S>>,
    u: i64,
    session: u64,
    v: i64,
)
    requires
        routes.contains_key(v),
        routes[v].session != session,
    ensures
        routes_after_close(routes, u, session).contains_key(v),
        routes_after_close(routes, u, session)[v] == routes[v],
{
}

/// The hand-off around the key store: `set_pubkey` passes the store exactly the key
/// in the request, and `get_pubkey` asks the store for exactly the user named. What
/// the store keeps between the two is the store's own; [`get_pubkey_reply`] returns
/// a loaded key unchanged.
///
/// [`get_pubkey_reply`]: crate::session::get_pubkey_reply
pub proof fn key_hand_off(
    user_id: i64,
    require_e2ee: bool,
    set_data: Seq<char>,
    key: Seq<char>,
    get_data: Seq<char>,
    owner: i64,
)
    requires
        set_pubkey_request_of(set_data) == Some(key),
        get_pubkey_request_of(get_data) == Some(owner),
    ensures
        authed_frame_outcome(user_id, require_e2ee, "set_pubkey"@, set_data) == StepView::StorePubkey(
            key,
        ),
        authed_frame_outcome(user_id, require_e2ee, "get_pubkey"@, get_data) == StepView::LoadPubkey(
            owner,
        ),
{
    reveal_strlit("set_pubkey");
    reveal_strlit("get_pubkey");
    reveal_strlit("message");
    assert("set_pubkey"@.len() != "message"@.len());
    assert("get_pubkey"@.len() != "message"@.len());
    assert("get_pubkey"@[0] != "set_pubkey"@[0]);
}

} // verus!
