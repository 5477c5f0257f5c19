//! The routing table: which session of each user receives that user's messages.
use std::collections::HashMap;
use vstd::prelude::*;

verus! {

broadcast use vstd::std_specs::hash::group_hash_axioms;

/// The outbound sink of one authenticated session, tagged with the session's id.
pub struct ClientHandle<S> {
    pub session: u64,
    pub tx: S,
}

/// The routes once session `session` of `user_id` has ended: its route goes only
/// where it is still that session's.
pub open spec fn routes_after_close<S>(
    routes: Map<i64, ClientHandle<S>>,
    user_id: i64,
    session: u64,
) -> Map<i64, ClientHandle<S>> {
    if routes.contains_key(user_id) && routes[user_id].session == session {
        routes.remove(user_id)
    } else {
        routes
    }
}

/// State shared by all connections: the routing table and the end-to-end policy.
#[verifier::reject_recursive_types(S)]
pub struct AppState<S> {
    users: HashMap<i64, ClientHandle<S>>,
    require_e2ee: bool,
}

impl<S> AppState<S> {
    /// The routing table as a map from user id to the handle of its latest session.
    pub closed spec fn routes(&self) -> Map<i64, ClientHandle<S>> {
        self.users@
    }

    /// Whether message bodies must be well-formed encrypted envelopes.
    pub closed spec fn e2ee_required(&self) -> bool {
        self.require_e2ee
    }

    pub fn new(require_e2ee: bool) -> (r: AppState<S>)
        ensures
            r.routes() == Map::<i64, ClientHandle<S>>::empty(),
            r.e2ee_required() == require_e2ee,
    {
        AppState { users: HashMap::new(), require_e2ee }
    }

    /// An empty table that enforces end-to-end encryption.
    pub fn default() -> (r: AppState<S>)
        ensures
            r.routes() == Map::<i64, ClientHandle<S>>::empty(),
            r.e2ee_required(),
    {
        AppState::new(true)
    }

    /// Routes `user_id` to `handle`, replacing any earlier session of that user.
    pub fn register(&mut self, user_id: i64, handle: ClientHandle<S>)
        ensures
            final(self).routes() == old(self).routes().insert(user_id, handle),
            final(self).e2ee_required() == old(self).e2ee_required(),
    {
        self.users.insert(user_id, handle);
    }

    /// Removes the route of `user_id`, whichever session it points to.
    pub fn unregister(&mut self, user_id: i64)
        ensures
            final(self).routes() == old(self).routes().remove(user_id),
            final(self).e2ee_required() == old(self).e2ee_required(),
    {
        self.users.remove(&user_id);
    }

    /// Removes the route of `user_id` only where it still points to `session`; a
    /// later session of the same user keeps its route. Returns whether it removed.
    pub fn unregister_session(&mut self, user_id: i64, session: u64) -> (r: bool)
        ensures
            r == (old(self).routes().contains_key(user_id) && old(self).routes()[user_id].session
                == session),
            final(self).routes() == routes_after_close(old(self).routes(), user_id, session),
            final(self).e2ee_required() == old(self).e2ee_required(),
    {
        let owns = match self.users.get(&user_id) {
            Some(h) => h.session == session,
            None => false,
        };
        if owns {
            self.users.remove(&user_id);
        }
        owns
    }

    /// The sink of the latest session of `user_id`, if the user is online.
    pub fn get_sender(&self, user_id: i64) -> (r: Option<&S>)
        ensures
            match r {
                Some(tx) => self.routes().contains_key(user_id) && *tx == self.routes()[user_id].tx,
                None => !self.routes().contains_key(user_id),
            },
    {
        match self.users.get(&user_id) {
            Some(h) => Some(&h.tx),
            None => None,
        }
    }

    /// The id of the latest session of `user_id`, if the user is online.
    pub fn get_session(&self, user_id: i64) -> (r: Option<u64>)
        ensures
            match r {
                Some(s) => self.routes().contains_key(user_id) && s == self.routes()[user_id].session,
                None => !self.routes().contains_key(user_id),
            },
    {
        match self.users.get(&user_id) {
            Some(h) => Some(h.session),
            None => None,
        }
    }

    pub fn require_e2ee(&self) -> (r: bool)
        ensures
            r == self.e2ee_required(),
    {
        self.require_e2ee
    }
}

} // verus!
