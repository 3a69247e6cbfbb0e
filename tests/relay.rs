use cipher_relay::credentials::credential_for;
use cipher_relay::envelope::{AuthAction, KeyBundle, KeyPairB64, MsgContent, MsgPayload, OpAuthPayload};
use cipher_relay::queue::OfflineQueue;
use cipher_relay::registry::SessionRegistry;
use cipher_relay::router::{route, RouteAction};
use cipher_relay::session::{auth_response, CipherNode, Request};

fn pair(public: &str, private: Option<&str>) -> KeyPairB64 {
    KeyPairB64 { public: public.to_string(), private: private.map(|p| p.to_string()) }
}

fn bundle(onetime: &[&str]) -> KeyBundle {
    KeyBundle {
        identity: pair("id-pub", Some("id-priv")),
        prekey: pair("pre-pub", Some("pre-priv")),
        signature: pair("sig-pub", None),
        onetime_keys: onetime.iter().map(|k| pair(k, Some("otk-priv"))).collect(),
        ephemeral_key: Some(pair("eph-pub", Some("eph-priv"))),
    }
}

fn message(recipient: &str, ciphertext: &str, nonce: &str) -> MsgPayload {
    MsgPayload {
        content: Some(MsgContent {
            ciphertext: ciphertext.to_string(),
            nonce: nonce.to_string(),
            cleartext: None,
        }),
        timestamp: 7,
        auth: None,
        message_id: "m-1".to_string(),
        author: "forged".to_string(),
        recipient: recipient.to_string(),
    }
}

fn auth_request(action: &str, user: &str, password: &str, keybundle: Option<KeyBundle>) -> MsgPayload {
    MsgPayload {
        content: None,
        timestamp: 1,
        auth: Some(OpAuthPayload {
            action: action.to_string(),
            user: user.to_string(),
            password: password.to_string(),
            keybundle,
            message: String::new(),
            success: None,
        }),
        message_id: "req".to_string(),
        author: String::new(),
        recipient: String::new(),
    }
}

fn ok_token() -> Result<String, String> {
    Ok("token".to_string())
}

#[test]
fn auth_action_names_round_trip() {
    for a in [AuthAction::Login, AuthAction::Register, AuthAction::FetchBundle] {
        assert_eq!(AuthAction::parse(&a.name()), Some(a));
    }
    assert_eq!(AuthAction::FetchBundle.name(), "fetch_bundle");
    assert_eq!(AuthAction::parse(&"logout".to_string()), None);
}

#[test]
fn handle_dispatches_by_shape() {
    let fresh = CipherNode::new(1);
    match fresh.handle(auth_request("login", "alice", "pw", None)) {
        Request::Login { user, password } => {
            assert_eq!(user, "alice");
            assert_eq!(password, "pw");
        }
        other => panic!("unexpected {:?}", other),
    }
    match fresh.handle(auth_request("register", "alice", "pw", Some(bundle(&["k1"])))) {
        Request::Register { user, keybundle, .. } => {
            assert_eq!(user, "alice");
            assert_eq!(keybundle.onetime_keys.len(), 1);
        }
        other => panic!("unexpected {:?}", other),
    }
    assert!(matches!(fresh.handle(auth_request("register", "alice", "pw", None)), Request::Ignore));
    assert!(matches!(fresh.handle(auth_request("dance", "alice", "pw", None)), Request::Ignore));
    // A bundle fetch or a message needs a session.
    assert!(matches!(fresh.handle(auth_request("fetch_bundle", "bob", "", None)), Request::Ignore));
    assert!(matches!(fresh.handle(message("bob", "c", "n")), Request::Ignore));

    let mut registry = SessionRegistry::new();
    let mut queue = OfflineQueue::new();
    let mut conn = CipherNode::new(1);
    conn.finish_login(&mut registry, &mut queue, "alice".to_string(), ok_token(), 5);
    match conn.handle(auth_request("fetch_bundle", "bob", "", None)) {
        Request::FetchBundle { user } => assert_eq!(user, "bob"),
        other => panic!("unexpected {:?}", other),
    }
    assert!(matches!(conn.handle(message("bob", "c", "n")), Request::Route(_)));
    assert!(matches!(conn.handle(message("", "c", "n")), Request::Ignore));
}

#[test]
fn auth_response_blanks_password_and_names_system() {
    let r = auth_response(AuthAction::Login, "alice".to_string(), "hi".to_string(), true, None, "alice".to_string(), 42);
    let auth = r.auth.clone().unwrap();
    assert_eq!(auth.action, "login");
    assert_eq!(auth.password, "");
    assert_eq!(auth.success, Some(true));
    assert_eq!(r.author, "System");
    assert_eq!(r.timestamp, 42);
    assert_eq!(r.message_id.len(), 36);
    assert!(r.content.is_none());
}

#[test]
fn credential_hashes_password_and_issues_token() {
    let c = credential_for("alice".to_string(), &"password".to_string());
    assert_eq!(c.name, "alice");
    assert_eq!(c.password_hash, "5e884898da28047151d0e56f8dc6292773603d0d6aabbdd62a11ef721d1542d8");
    assert_eq!(c.token.len(), 36);
    let again = credential_for("alice".to_string(), &"password".to_string());
    assert_eq!(again.password_hash, c.password_hash);
    assert_ne!(again.token, c.token);
}

#[test]
fn public_bundle_drops_private_keys() {
    let b = bundle(&["k1", "k2"]);
    let p = b.public_only();
    assert_eq!(p.identity, pair("id-pub", None));
    assert_eq!(p.prekey, pair("pre-pub", None));
    assert_eq!(p.signature, pair("sig-pub", None));
    assert_eq!(p.onetime_keys, vec![pair("k1", None), pair("k2", None)]);
    assert_eq!(p.ephemeral_key, Some(pair("eph-pub", None)));
}

#[test]
fn last_login_wins() {
    let mut registry = SessionRegistry::new();
    let mut queue = OfflineQueue::new();
    let mut conns: Vec<CipherNode> = (1..=3).map(CipherNode::new).collect();
    for c in conns.iter_mut() {
        c.finish_login(&mut registry, &mut queue, "alice".to_string(), ok_token(), 1);
    }
    assert_eq!(registry.get(&"alice".to_string()), Some(3));
    // Earlier connections ending do not end the newer session.
    conns[0].cleanup(&mut registry);
    conns[1].cleanup(&mut registry);
    assert_eq!(registry.get(&"alice".to_string()), Some(3));
    conns[2].cleanup(&mut registry);
    assert_eq!(registry.get(&"alice".to_string()), None);
    conns[2].cleanup(&mut registry);
    assert_eq!(registry.get(&"alice".to_string()), None);
}

#[test]
fn registry_remove_if_compares_connection() {
    let mut registry = SessionRegistry::new();
    registry.put("bob".to_string(), 4);
    assert!(!registry.remove_if(&"bob".to_string(), 5));
    assert_eq!(registry.get(&"bob".to_string()), Some(4));
    assert!(registry.remove_if(&"bob".to_string(), 4));
    assert_eq!(registry.get(&"bob".to_string()), None);
}

#[test]
fn self_message_goes_back_over_own_connection() {
    let mut registry = SessionRegistry::new();
    let mut queue = OfflineQueue::new();
    let mut conn = CipherNode::new(9);
    conn.finish_login(&mut registry, &mut queue, "alice".to_string(), ok_token(), 1);
    match conn.route(&registry, &mut queue, true, message("alice", "c", "n")) {
        RouteAction::DeliverToSelf(m) => {
            assert_eq!(m.author, "alice");
            assert_eq!(m.content.unwrap().ciphertext, "c");
        }
        other => panic!("unexpected {:?}", other),
    }
    assert_eq!(queue.pending(&"alice".to_string()), 0);
}

#[test]
fn online_recipient_gets_delivery() {
    let mut registry = SessionRegistry::new();
    let mut queue = OfflineQueue::new();
    registry.put("bob".to_string(), 2);
    match route(&registry, &mut queue, "alice".to_string(), true, message("bob", "c", "n")) {
        RouteAction::Deliver(conn, m) => {
            assert_eq!(conn, 2);
            assert_eq!(m.author, "alice");
        }
        other => panic!("unexpected {:?}", other),
    }
    assert_eq!(queue.pending(&"bob".to_string()), 0);
}

#[test]
fn offline_queue_fifo_and_drained_once() {
    let mut registry = SessionRegistry::new();
    let mut queue = OfflineQueue::new();
    for c in ["m1", "m2", "m3"] {
        let r = route(&registry, &mut queue, "alice".to_string(), true, message("bob", c, "n"));
        assert!(matches!(r, RouteAction::Queued));
    }
    assert_eq!(queue.pending(&"bob".to_string()), 3);
    let mut bob = CipherNode::new(2);
    let out = bob.finish_login(&mut registry, &mut queue, "bob".to_string(), ok_token(), 1);
    let texts: Vec<String> = out[1..].iter().map(|m| m.content.clone().unwrap().ciphertext).collect();
    assert_eq!(texts, vec!["m1", "m2", "m3"]);
    assert_eq!(queue.pending(&"bob".to_string()), 0);
    let again = bob.finish_login(&mut registry, &mut queue, "bob".to_string(), ok_token(), 2);
    assert_eq!(again.len(), 1);
    assert!(queue.drain(&"bob".to_string()).is_empty());
}

#[test]
fn login_message_offline_redelivery() {
    let mut registry = SessionRegistry::new();
    let mut queue = OfflineQueue::new();
    let mut a = CipherNode::new(1);
    let mut b = CipherNode::new(2);
    let ra = a.finish_register(&mut registry, &mut queue, "A".to_string(), ok_token(), 10);
    assert_eq!(ra.len(), 1);
    assert_eq!(ra[0].auth.clone().unwrap().message, "Registration successful");
    b.finish_register(&mut registry, &mut queue, "B".to_string(), ok_token(), 11);
    b.cleanup(&mut registry);
    assert_eq!(registry.get(&"B".to_string()), None);

    let sent = message("B", "c1", "n1");
    let r = a.route(&registry, &mut queue, true, sent.clone());
    assert!(matches!(r, RouteAction::Queued));

    let mut b2 = CipherNode::new(3);
    let out = b2.finish_login(&mut registry, &mut queue, "B".to_string(), ok_token(), 12);
    assert_eq!(out.len(), 2);
    assert_eq!(out[0].auth.clone().unwrap().message, "Login successful");
    let mut expected = sent;
    expected.author = "A".to_string();
    assert_eq!(out[1], expected);
    assert_eq!(registry.get(&"B".to_string()), Some(3));

    let again = b2.finish_login(&mut registry, &mut queue, "B".to_string(), ok_token(), 13);
    assert_eq!(again.len(), 1);
}

#[test]
fn unknown_recipient_is_dropped_silently() {
    let mut registry = SessionRegistry::new();
    let mut queue = OfflineQueue::new();
    let mut a = CipherNode::new(1);
    a.finish_register(&mut registry, &mut queue, "A".to_string(), ok_token(), 1);
    let r = a.route(&registry, &mut queue, false, message("ghost", "c", "n"));
    assert!(matches!(r, RouteAction::Dropped));
    assert_eq!(queue.pending(&"ghost".to_string()), 0);
}

#[test]
fn failed_login_changes_nothing() {
    let mut registry = SessionRegistry::new();
    let mut queue = OfflineQueue::new();
    route(&registry, &mut queue, "x".to_string(), true, message("alice", "c", "n"));
    let mut conn = CipherNode::new(1);
    let out = conn.finish_login(&mut registry, &mut queue, "alice".to_string(), Err("bad".to_string()), 3);
    assert_eq!(out.len(), 1);
    let auth = out[0].auth.clone().unwrap();
    assert_eq!(auth.message, "Login failed: bad");
    assert_eq!(auth.success, Some(false));
    assert!(!conn.authenticated);
    assert!(conn.identity.is_none());
    assert_eq!(registry.get(&"alice".to_string()), None);
    assert_eq!(queue.pending(&"alice".to_string()), 1);
}

#[test]
fn failed_registration_reports_error() {
    let mut registry = SessionRegistry::new();
    let mut queue = OfflineQueue::new();
    let mut conn = CipherNode::new(1);
    let out = conn.finish_register(&mut registry, &mut queue, "alice".to_string(), Err("taken".to_string()), 3);
    assert_eq!(out.len(), 1);
    assert_eq!(out[0].auth.clone().unwrap().message, "Registration failed: taken");
    assert_eq!(registry.get(&"alice".to_string()), None);
}

#[test]
fn fetch_bundle_answers_requester() {
    let mut registry = SessionRegistry::new();
    let mut queue = OfflineQueue::new();
    let mut conn = CipherNode::new(1);
    conn.finish_login(&mut registry, &mut queue, "alice".to_string(), ok_token(), 1);
    let ok = conn.finish_fetch_bundle("bob".to_string(), Ok(bundle(&["k1"])), 5);
    assert_eq!(ok.recipient, "alice");
    let auth = ok.auth.unwrap();
    assert_eq!(auth.action, "fetch_bundle");
    assert_eq!(auth.user, "bob");
    assert_eq!(auth.success, Some(true));
    let b = auth.keybundle.unwrap();
    assert_eq!(b.onetime_keys, vec![pair("k1", None)]);
    assert_eq!(b.identity.private, None);

    let err = conn.finish_fetch_bundle("bob".to_string(), Err("no keys left".to_string()), 6);
    let auth = err.auth.unwrap();
    assert_eq!(auth.message, "fetching bundle failed: no keys left");
    assert_eq!(auth.success, Some(false));
    assert!(auth.keybundle.is_none());
}
