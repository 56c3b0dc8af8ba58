//! Direct tests of the in-memory session store as an identity handler.

use session_auth::AccessToken;
use session_auth::AuthHandler;
use session_auth::RefreshToken;
use session_auth::SessionStore;

use std::sync::Arc;

fn access(value: &str) -> AccessToken {
    AccessToken::new(value.to_string())
}

fn refresh(value: &str) -> RefreshToken {
    RefreshToken::new(value.to_string())
}

#[test]
fn membership_checks_mirror_the_store() {
    let mut store: SessionStore<u32> = SessionStore::new(60);
    assert!(!store.contains_access_token(&access("at-1")));
    assert!(!store.contains_refresh_token(&refresh("rt-1")));

    store.insert_session(access("at-1"), 7);
    store.link_refresh_token(refresh("rt-1"), access("at-1"));
    assert!(store.contains_access_token(&access("at-1")));
    assert!(store.contains_refresh_token(&refresh("rt-1")));
    assert!(!store.contains_access_token(&access("at-2")));

    store.revoke_refresh_token(&refresh("rt-1"));
    assert!(!store.contains_access_token(&access("at-1")));
    assert!(!store.contains_refresh_token(&refresh("rt-1")));
}

#[test]
fn verification_accepts_exactly_the_stored_sessions() {
    let mut store: SessionStore<u32> = SessionStore::new(60);
    store.insert_session(access("at-1"), 7);

    assert_eq!(store.verify_access_token(&access("at-1")).as_deref(), Ok(&7));
    assert_eq!(store.verify_access_token(&access("at-2")), Err(401));

    // Verification is side-effect-free: asking again gives the same answer.
    assert_eq!(store.verify_access_token(&access("at-1")).as_deref(), Ok(&7));
}

#[test]
fn renewal_keeps_the_token_and_grants_the_configured_ttl() {
    let mut store: SessionStore<u32> = SessionStore::new(90);
    store.insert_session(access("at-1"), 7);

    let login_info = Arc::new(7);
    let renewed = store.update_access_token(&access("at-1"), &login_info);
    match renewed {
        Some((token, ttl)) => {
            assert_eq!(token.as_str(), "at-1");
            assert_eq!(ttl, 90);
        }
        None => panic!("a live session renews"),
    }

    // A token without a session is never renewed.
    assert!(store.update_access_token(&access("at-2"), &login_info).is_none());
}

#[test]
fn revoking_an_access_token_erases_only_its_session() {
    let mut store: SessionStore<u32> = SessionStore::new(60);
    store.insert_session(access("at-1"), 7);
    store.insert_session(access("at-2"), 8);
    store.link_refresh_token(refresh("rt-1"), access("at-1"));

    let login_info = Arc::new(7);
    store.revoke_access_token(&access("at-1"), &login_info);
    assert_eq!(store.verify_access_token(&access("at-1")), Err(401));
    assert_eq!(store.verify_access_token(&access("at-2")).as_deref(), Ok(&8));
    assert_eq!(store.verify_refresh_token(&refresh("rt-1")), Ok(()));

    // Revoking an absent token is a no-op, not an error.
    store.revoke_access_token(&access("at-1"), &login_info);
    assert_eq!(store.verify_access_token(&access("at-2")).as_deref(), Ok(&8));
}

#[test]
fn revoking_a_refresh_token_cascades_to_its_access_session() {
    let mut store: SessionStore<u32> = SessionStore::new(60);
    store.insert_session(access("at-1"), 7);
    store.link_refresh_token(refresh("rt-1"), access("at-1"));

    store.revoke_refresh_token(&refresh("rt-1"));
    assert_eq!(store.verify_refresh_token(&refresh("rt-1")), Err(401));
    assert_eq!(store.verify_access_token(&access("at-1")), Err(401));

    // A second revocation of the same token changes nothing.
    store.revoke_refresh_token(&refresh("rt-1"));
    assert_eq!(store.verify_refresh_token(&refresh("rt-1")), Err(401));
}

#[test]
fn refresh_rotation_moves_the_session_to_the_new_token() {
    let mut store: SessionStore<u32> = SessionStore::new(60);
    store.insert_session(access("at-1"), 7);
    store.link_refresh_token(refresh("rt-1"), access("at-1"));

    assert!(store.refresh_session(&refresh("rt-1"), access("at-2")));
    assert_eq!(store.verify_access_token(&access("at-1")), Err(401));
    assert_eq!(store.verify_access_token(&access("at-2")).as_deref(), Ok(&7));

    // The refresh token stays linked, now to the new access token.
    assert!(store.refresh_session(&refresh("rt-1"), access("at-3")));
    assert_eq!(store.verify_access_token(&access("at-3")).as_deref(), Ok(&7));

    // An unknown refresh token rotates nothing.
    assert!(!store.refresh_session(&refresh("rt-9"), access("at-4")));
    assert_eq!(store.verify_access_token(&access("at-4")), Err(401));
}
