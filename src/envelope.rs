use vstd::prelude::*;

verus! {

/// One key pair, each half a base64 string. The private half is absent in
/// every bundle that is handed to a peer.
#[derive(Clone, Debug, PartialEq, Eq)]
pub struct KeyPairB64 {
    pub public: String,
    pub private: Option<String>,
}

/// A prekey bundle: the static keys of an identity and its pool of
/// one-time keys.
#[derive(Clone, Debug, PartialEq, Eq)]
pub struct KeyBundle {
    pub identity: KeyPairB64,
    pub prekey: KeyPairB64,
    pub signature: KeyPairB64,
    pub onetime_keys: Vec<KeyPairB64>,
    pub ephemeral_key: Option<KeyPairB64>,
}

/// The content of a routed message: opaque ciphertext and its nonce.
#[derive(Clone, Debug, PartialEq, Eq)]
pub struct MsgContent {
    pub ciphertext: String,
    pub nonce: String,
    pub cleartext: Option<String>,
}

/// The payload of an authentication or key-exchange operation, both as a
/// request and as the answer to it.
#[derive(Clone, Debug, PartialEq, Eq)]
pub struct OpAuthPayload {
    pub action: String,
    pub user: String,
    pub password: String,
    pub keybundle: Option<KeyBundle>,
    pub message: String,
    pub success: Option<bool>,
}

/// The envelope: one unit exchanged over a connection.
#[derive(Clone, Debug, PartialEq, Eq)]
pub struct MsgPayload {
    pub content: Option<MsgContent>,
    pub timestamp: u64,
    pub auth: Option<OpAuthPayload>,
    pub message_id: String,
    pub author: String,
    pub recipient: String,
}

/// The operations of the authentication sub-protocol.
#[derive(PartialEq, Eq, Structural, Clone, Copy, Debug)]
pub enum AuthAction {
    Login,
    Register,
    FetchBundle,
}

/// The wire name of an operation.
pub open spec fn action_name(a: AuthAction) -> Seq<char> {
    match a {
        AuthAction::Login => "login"@,
        AuthAction::Register => "register"@,
        AuthAction::FetchBundle => "fetch_bundle"@,
    }
}

/// The operation whose wire name is `s`, if any.
pub open spec fn action_of(s: Seq<char>) -> Option<AuthAction> {
    if s == "login"@ {
        Some(AuthAction::Login)
    } else if s == "register"@ {
        Some(AuthAction::Register)
    } else if s == "fetch_bundle"@ {
        Some(AuthAction::FetchBundle)
    } else {
        None
    }
}

impl AuthAction {
    /// The operation named `s` on the wire.
    pub fn parse(s: &String) -> (r: Option<AuthAction>)
        ensures
            r == action_of(s@),
    {
        proof {
            reveal_strlit("login");
            reveal_strlit("register");
            reveal_strlit("fetch_bundle");
        }
        if *s == "login".to_owned() {
            Some(AuthAction::Login)
        } else if *s == "register".to_owned() {
            Some(AuthAction::Register)
        } else if *s == "fetch_bundle".to_owned() {
            Some(AuthAction::FetchBundle)
        } else {
            None
        }
    }

    /// The wire name of this operation.
    pub fn name(&self) -> (r: String)
        ensures
            r@ == action_name(*self),
    {
        match self {
            AuthAction::Login => "login".to_owned(),
            AuthAction::Register => "register".to_owned(),
            AuthAction::FetchBundle => "fetch_bundle".to_owned(),
        }
    }
}

/// An envelope that carries an authentication operation.
pub open spec fn is_auth_request(m: MsgPayload) -> bool {
    m.auth is Some && m.content is None
}

/// An envelope that is to be routed to another identity.
pub open spec fn is_routed(m: MsgPayload) -> bool {
    !is_auth_request(m) && m.recipient@.len() > 0
}

/// A key pair with its private half left out.
pub open spec fn public_pair(k: KeyPairB64) -> KeyPairB64 {
    KeyPairB64 { public: k.public, private: None }
}

/// A key pair that carries no private half.
pub open spec fn is_public_pair(k: KeyPairB64) -> bool {
    k.private is None
}

/// A bundle that carries no private key material.
pub open spec fn is_public_bundle(b: KeyBundle) -> bool {
    &&& is_public_pair(b.identity)
    &&& is_public_pair(b.prekey)
    &&& is_public_pair(b.signature)
    &&& forall|i: int| 0 <= i < b.onetime_keys@.len() ==> is_public_pair(#[trigger] b.onetime_keys@[i])
    &&& match b.ephemeral_key {
        Some(k) => is_public_pair(k),
        None => true,
    }
}

/// The public keys of `b`, each in the place where `b` holds it.
pub open spec fn same_public_keys(b: KeyBundle, p: KeyBundle) -> bool {
    &&& p.identity == public_pair(b.identity)
    &&& p.prekey == public_pair(b.prekey)
    &&& p.signature == public_pair(b.signature)
    &&& p.onetime_keys@.len() == b.onetime_keys@.len()
    &&& forall|i: int|
        0 <= i < b.onetime_keys@.len() ==> #[trigger] p.onetime_keys@[i] == public_pair(
            b.onetime_keys@[i],
        )
    &&& p.ephemeral_key == match b.ephemeral_key {
        Some(k) => Some(public_pair(k)),
        None => None,
    }
}

impl KeyPairB64 {
    /// This key pair without its private half.
    pub fn public_only(&self) -> (r: KeyPairB64)
        ensures
            r == public_pair(*self),
    {
        KeyPairB64 { public: self.public.clone(), private: None }
    }
}

impl KeyBundle {
    /// The bundle as a peer may see it: every private half is left out.
    pub fn public_only(&self) -> (r: KeyBundle)
        ensures
            same_public_keys(*self, r),
            is_public_bundle(r),
    {
        let mut onetime: Vec<KeyPairB64> = Vec::new();
        let n = self.onetime_keys.len();
        let mut i: usize = 0;
        while i < n
            invariant
                n == self.onetime_keys@.len(),
                i <= n,
                onetime@.len() == i,
                forall|j: int| 0 <= j < i ==> #[trigger] onetime@[j] == public_pair(self.onetime_keys@[j]),
            decreases n - i,
        {
            onetime.push(self.onetime_keys[i].public_only());
            i = i + 1;
        }
        let ephemeral_key = match &self.ephemeral_key {
            Some(k) => Some(k.public_only()),
            None => None,
        };
        KeyBundle {
            identity: self.identity.public_only(),
            prekey: self.prekey.public_only(),
            signature: self.signature.public_only(),
            onetime_keys: onetime,
            ephemeral_key,
        }
    }
}

} // verus!
