use vstd::prelude::*;

use crate::credentials::new_uuid;
use crate::envelope::{
    action_name, action_of, is_auth_request, is_public_bundle, same_public_keys, AuthAction,
    KeyBundle, MsgPayload, OpAuthPayload,
};
use crate::queue::{enqueued, queued, OfflineQueue};
use crate::registry::{ConnId, SessionRegistry};
use crate::router::{authored, route, route_outcome, RouteAction};

verus! {

/// What a connection is asked to do by one inbound envelope.
#[derive(Debug)]
pub enum Request {
    Login { user: String, password: String },
    Register { user: String, password: String, keybundle: KeyBundle },
    FetchBundle { user: String },
    Route(MsgPayload),
    Ignore,
}

/// The request that `m` makes of a connection whose session identity is
/// `identity`. Fetching a bundle and sending a message need a session; a
/// registration needs a bundle; anything else is ignored.
pub open spec fn request_of(identity: Option<String>, m: MsgPayload) -> Request {
    if is_auth_request(m) {
        let a = m.auth->Some_0;
        match action_of(a.action@) {
            Some(AuthAction::Login) => Request::Login { user: a.user, password: a.password },
            Some(AuthAction::Register) => match a.keybundle {
                Some(b) => Request::Register { user: a.user, password: a.password, keybundle: b },
                None => Request::Ignore,
            },
            Some(AuthAction::FetchBundle) => if identity is Some {
                Request::FetchBundle { user: a.user }
            } else {
                Request::Ignore
            },
            None => Request::Ignore,
        }
    } else if m.recipient@.len() > 0 && identity is Some {
        Request::Route(m)
    } else {
        Request::Ignore
    }
}

/// `r` is the answer of the server to an authentication operation.
pub open spec fn is_auth_response(
    r: MsgPayload,
    action: AuthAction,
    user: Seq<char>,
    message: Seq<char>,
    success: bool,
    keybundle: Option<KeyBundle>,
    recipient: Seq<char>,
    now: u64,
) -> bool {
    &&& r.content is None
    &&& r.timestamp == now
    &&& r.message_id@.len() == 36
    &&& r.author@ == "System"@
    &&& r.recipient@ == recipient
    &&& r.auth is Some
    &&& r.auth->Some_0.action@ == action_name(action)
    &&& r.auth->Some_0.user@ == user
    &&& r.auth->Some_0.password@ == Seq::<char>::empty()
    &&& r.auth->Some_0.keybundle == keybundle
    &&& r.auth->Some_0.message@ == message
    &&& r.auth->Some_0.success == Some(success)
}

/// The answer of the server to an authentication operation, under a fresh
/// message id. The password is always left blank.
pub fn auth_response(
    action: AuthAction,
    user: String,
    message: String,
    success: bool,
    keybundle: Option<KeyBundle>,
    recipient: String,
    now: u64,
) -> (r: MsgPayload)
    ensures
        is_auth_response(r, action, user@, message@, success, keybundle, recipient@, now),
{
    proof {
        reveal_strlit("System");
    }
    let auth = OpAuthPayload {
        action: action.name(),
        user,
        password: String::new(),
        keybundle,
        message,
        success: Some(success),
    };
    MsgPayload {
        content: None,
        timestamp: now,
        auth: Some(auth),
        message_id: new_uuid(),
        author: "System".to_owned(),
        recipient,
    }
}

/// The state of one live connection: unauthenticated until a login or a
/// registration succeeds, then the session of one identity.
#[derive(Debug)]
pub struct CipherNode {
    pub conn: ConnId,
    pub authenticated: bool,
    pub identity: Option<String>,
}

impl CipherNode {
    /// The state of connection `conn` when it opens.
    pub fn new(conn: ConnId) -> (r: CipherNode)
        ensures
            r.conn == conn,
            !r.authenticated,
            r.identity is None,
    {
        CipherNode { conn, authenticated: false, identity: None }
    }

    /// What the inbound envelope `m` asks of this connection.
    pub fn handle(&self, m: MsgPayload) -> (r: Request)
        ensures
            r == request_of(self.identity, m),
    {
        if m.auth.is_some() && m.content.is_none() {
            let a = match m.auth {
                Some(a) => a,
                None => {
                    return Request::Ignore;
                },
            };
            match AuthAction::parse(&a.action) {
                Some(AuthAction::Login) => Request::Login { user: a.user, password: a.password },
                Some(AuthAction::Register) => match a.keybundle {
                    Some(b) => Request::Register {
                        user: a.user,
                        password: a.password,
                        keybundle: b,
                    },
                    None => Request::Ignore,
                },
                Some(AuthAction::FetchBundle) => if self.identity.is_some() {
                    Request::FetchBundle { user: a.user }
                } else {
                    Request::Ignore
                },
                None => Request::Ignore,
            }
        } else if !m.recipient.as_str().is_empty() && self.identity.is_some() {
            Request::Route(m)
        } else {
            Request::Ignore
        }
    }

    /// Opens the session of `user` on this connection: the registry now
    /// maps `user` here, and everything that waited for `user` is handed
    /// back, oldest first.
    fn establish(
        &mut self,
        registry: &mut SessionRegistry,
        queue: &mut OfflineQueue,
        user: &String,
    ) -> (r: Vec<MsgPayload>)
        requires
            old(registry).wf(),
            old(queue).wf(),
        ensures
            final(registry).wf(),
            final(queue).wf(),
            final(self).conn == old(self).conn,
            final(self).authenticated,
            final(self).identity == Some(*user),
            final(registry)@ == old(registry)@.insert(user@, old(self).conn),
            final(queue)@ == old(queue)@.remove(user@),
            r@ == queued(old(queue)@, user@),
    {
        let missed = queue.drain(user);
        self.authenticated = true;
        self.identity = Some(user.clone());
        registry.put(user.clone(), self.conn);
        missed
    }

    /// Completes a login of `user` whose credential check gave `outcome`.
    /// On success the answer comes first, then everything that waited for
    /// `user`, oldest first; the queue no longer holds it, and the session
    /// of `user` is this connection. On failure only the answer comes, and
    /// nothing else changes.
    pub fn finish_login(
        &mut self,
        registry: &mut SessionRegistry,
        queue: &mut OfflineQueue,
        user: String,
        outcome: Result<String, String>,
        now: u64,
    ) -> (r: Vec<MsgPayload>)
        requires
            old(registry).wf(),
            old(queue).wf(),
        ensures
            final(registry).wf(),
            final(queue).wf(),
            final(self).conn == old(self).conn,
            r@.len() >= 1,
            match outcome {
                Ok(_) => {
                    &&& final(self).authenticated
                    &&& final(self).identity == Some(user)
                    &&& final(registry)@ == old(registry)@.insert(user@, old(self).conn)
                    &&& final(queue)@ == old(queue)@.remove(user@)
                    &&& is_auth_response(r@[0], AuthAction::Login, user@, "Login successful"@, true, None, user@, now)
                    &&& r@.drop_first() == queued(old(queue)@, user@)
                },
                Err(e) => {
                    &&& *final(self) == *old(self)
                    &&& final(registry)@ == old(registry)@
                    &&& final(queue)@ == old(queue)@
                    &&& r@.len() == 1
                    &&& is_auth_response(r@[0], AuthAction::Login, user@, "Login failed: "@ + e@, false, None, user@, now)
                },
            },
    {
        match outcome {
            Ok(_) => {
                let answer = auth_response(
                    AuthAction::Login,
                    user.clone(),
                    "Login successful".to_owned(),
                    true,
                    None,
                    user.clone(),
                    now,
                );
                let mut missed = self.establish(registry, queue, &user);
                let mut out: Vec<MsgPayload> = Vec::new();
                out.push(answer);
                out.append(&mut missed);
                proof {
                    assert(out@.drop_first() =~= queued(old(queue)@, user@));
                }
                out
            },
            Err(e) => {
                let message = "Login failed: ".to_owned().concat(e.as_str());
                let answer = auth_response(AuthAction::Login, user.clone(), message, false, None, user, now);
                let mut out: Vec<MsgPayload> = Vec::new();
                out.push(answer);
                out
            },
        }
    }

    /// Completes a registration of `user` whose credential store answered
    /// `outcome`. On success the session opens as after a login; on failure
    /// only the answer comes, and nothing else changes.
    pub fn finish_register(
        &mut self,
        registry: &mut SessionRegistry,
        queue: &mut OfflineQueue,
        user: String,
        outcome: Result<String, String>,
        now: u64,
    ) -> (r: Vec<MsgPayload>)
        requires
            old(registry).wf(),
            old(queue).wf(),
        ensures
            final(registry).wf(),
            final(queue).wf(),
            final(self).conn == old(self).conn,
            r@.len() >= 1,
            match outcome {
                Ok(_) => {
                    &&& final(self).authenticated
                    &&& final(self).identity == Some(user)
                    &&& final(registry)@ == old(registry)@.insert(user@, old(self).conn)
                    &&& final(queue)@ == old(queue)@.remove(user@)
                    &&& is_auth_response(r@[0], AuthAction::Register, user@, "Registration successful"@, true, None, user@, now)
                    &&& r@.drop_first() == queued(old(queue)@, user@)
                },
                Err(e) => {
                    &&& *final(self) == *old(self)
                    &&& final(registry)@ == old(registry)@
                    &&& final(queue)@ == old(queue)@
                    &&& r@.len() == 1
                    &&& is_auth_response(r@[0], AuthAction::Register, user@, "Registration failed: "@ + e@, false, None, user@, now)
                },
            },
    {
        match outcome {
            Ok(_) => {
                let answer = auth_response(
                    AuthAction::Register,
                    user.clone(),
                    "Registration successful".to_owned(),
                    true,
                    None,
                    user.clone(),
                    now,
                );
                let mut missed = self.establish(registry, queue, &user);
                let mut out: Vec<MsgPayload> = Vec::new();
                out.push(answer);
                out.append(&mut missed);
                proof {
                    assert(out@.drop_first() =~= queued(old(queue)@, user@));
                }
                out
            },
            Err(e) => {
                let message = "Registration failed: ".to_owned().concat(e.as_str());
                let answer = auth_response(AuthAction::Register, user.clone(), message, false, None, user, now);
                let mut out: Vec<MsgPayload> = Vec::new();
                out.push(answer);
                out
            },
        }
    }

    /// Completes a bundle fetch for `user` whose credential store answered
    /// `outcome`. The answer goes to this connection's identity; a fetched
    /// bundle is handed on without any private key material.
    pub fn finish_fetch_bundle(&self, user: String, outcome: Result<KeyBundle, String>, now: u64) -> (r: MsgPayload)
        requires
            self.identity is Some,
        ensures
            match outcome {
                Ok(b) => {
                    &&& r.auth is Some
                    &&& r.auth->Some_0.keybundle is Some
                    &&& same_public_keys(b, r.auth->Some_0.keybundle->Some_0)
                    &&& is_public_bundle(r.auth->Some_0.keybundle->Some_0)
                    &&& is_auth_response(r, AuthAction::FetchBundle, user@, "fetched bundle"@, true,
                        r.auth->Some_0.keybundle, self.identity->Some_0@, now)
                },
                Err(e) => is_auth_response(r, AuthAction::FetchBundle, user@, "fetching bundle failed: "@ + e@,
                    false, None, self.identity->Some_0@, now),
            },
    {
        let recipient = match &self.identity {
            Some(id) => id.clone(),
            None => String::new(),
        };
        match outcome {
            Ok(b) => {
                let public = b.public_only();
                auth_response(
                    AuthAction::FetchBundle,
                    user,
                    "fetched bundle".to_owned(),
                    true,
                    Some(public),
                    recipient,
                    now,
                )
            },
            Err(e) => {
                let message = "fetching bundle failed: ".to_owned().concat(e.as_str());
                auth_response(AuthAction::FetchBundle, user, message, false, None, recipient, now)
            },
        }
    }

    /// Routes `m` on behalf of this connection's identity, which becomes
    /// its author.
    pub fn route(
        &self,
        registry: &SessionRegistry,
        queue: &mut OfflineQueue,
        recipient_exists: bool,
        m: MsgPayload,
    ) -> (r: RouteAction)
        requires
            self.identity is Some,
            registry.wf(),
            old(queue).wf(),
        ensures
            final(queue).wf(),
            r == route_outcome(registry@, self.identity->Some_0, recipient_exists, m),
            final(queue)@ == (if r is Queued {
                enqueued(old(queue)@, m.recipient@, authored(m, self.identity->Some_0))
            } else {
                old(queue)@
            }),
    {
        let sender = match &self.identity {
            Some(id) => id.clone(),
            None => String::new(),
        };
        route(registry, queue, sender, recipient_exists, m)
    }

    /// Ends this connection: the session of its identity ends, unless a
    /// later login of that identity already took it over.
    pub fn cleanup(&self, registry: &mut SessionRegistry)
        requires
            old(registry).wf(),
        ensures
            final(registry).wf(),
            final(registry)@ == (match self.identity {
                Some(id) => if old(registry)@.contains_key(id@) && old(registry)@[id@] == self.conn {
                    old(registry)@.remove(id@)
                } else {
                    old(registry)@
                },
                None => old(registry)@,
            }),
    {
        match &self.identity {
            Some(id) => {
                registry.remove_if(id, self.conn);
            },
            None => {},
        }
    }
}

} // verus!
