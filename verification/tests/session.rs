use beedle::cart::CartItem;
use beedle::errors::{BeedleError, StoreOperation};
use beedle::resolver::{
    resolver_step, ClientMeta, ResolverAction, ResolverEvent, ResolverState,
};
use beedle::session::{
    cart_from_stored, confirm_session_write, cookie_for, create_new_session,
    ensure_session_cookie, get_cart_item_count, session_record, update_session_cart, SessionInfo,
    SessionRow, SESSION_TTL_SECS,
};
use beedle::token::parse_session_token;

const KNOWN_ID: u128 = 0xa1a2a3a4b1b2c1c2d1d2d3d4d5d6d7d8;
const KNOWN_TEXT: &str = "a1a2a3a4-b1b2-c1c2-d1d2-d3d4d5d6d7d8";

fn client() -> ClientMeta {
    ClientMeta { ip_address: "203.0.113.9".to_string(), user_agent: "tests/1.0".to_string() }
}

fn stored_row(session_id: u128, cart: Option<Vec<CartItem>>) -> SessionRow {
    SessionRow {
        session_id,
        user_id: Some(17),
        created_at: 1_700_000_000,
        updated_at: 1_700_000_500,
        expires_at: 1_700_000_000 + SESSION_TTL_SECS,
        ip_address: Some("198.51.100.1".to_string()),
        user_agent: None,
        cart_data: cart,
    }
}

fn session_with(cart: Vec<CartItem>, was_created: bool) -> SessionInfo {
    SessionInfo {
        session_id: KNOWN_ID,
        was_created,
        user_id: None,
        cart,
        ip_address: "203.0.113.9".to_string(),
        user_agent: "tests/1.0".to_string(),
    }
}

#[test]
fn request_without_cookie_creates_session_with_empty_cart() {
    let token = parse_session_token(None);
    assert_eq!(token, None);
    let (state, action) = resolver_step(ResolverState::Start, ResolverEvent::Request {
        token,
        client: client(),
    });
    let (ip_address, user_agent) = match action {
        ResolverAction::CreateSession { ip_address, user_agent } => (ip_address, user_agent),
        other => panic!("expected a creation, got {:?}", other),
    };
    assert_eq!(ip_address, "203.0.113.9");
    assert_eq!(user_agent, "tests/1.0");
    let row = create_new_session(&ip_address, &user_agent);
    let created_id = row.session_id;
    let (state, action) = resolver_step(state, ResolverEvent::CreateDone { row });
    assert!(matches!(state, ResolverState::Resolved));
    match action {
        ResolverAction::Finish { session } => {
            assert!(session.was_created);
            assert_eq!(session.session_id, created_id);
            assert_eq!(session.user_id, None);
            assert_eq!(session.cart, Vec::<CartItem>::new());
            assert_eq!(session.ip_address, "203.0.113.9");
            assert_eq!(session.user_agent, "tests/1.0");
        }
        other => panic!("expected a session, got {:?}", other),
    }
}

#[test]
fn request_with_known_cookie_uses_the_stored_session() {
    let token = parse_session_token(Some(KNOWN_TEXT));
    assert_eq!(token, Some(KNOWN_ID));
    let (state, action) = resolver_step(ResolverState::Start, ResolverEvent::Request {
        token,
        client: client(),
    });
    assert!(matches!(action, ResolverAction::FindSession { token: KNOWN_ID }));
    let cart = vec![CartItem { product_id: 4, quantity: 2 }];
    let (state, action) = resolver_step(state, ResolverEvent::LookupDone {
        found: Some(stored_row(KNOWN_ID, Some(cart.clone()))),
    });
    assert!(matches!(state, ResolverState::Resolved));
    match action {
        ResolverAction::Finish { session } => {
            assert!(!session.was_created);
            assert_eq!(session.session_id, KNOWN_ID);
            assert_eq!(session.user_id, Some(17));
            assert_eq!(session.cart, cart);
            assert_eq!(session.ip_address, "203.0.113.9");
        }
        other => panic!("expected a session, got {:?}", other),
    }
}

#[test]
fn expired_session_is_still_used() {
    let mut row = stored_row(KNOWN_ID, Some(Vec::new()));
    row.expires_at = 12;
    let (state, _) = resolver_step(ResolverState::Start, ResolverEvent::Request {
        token: Some(KNOWN_ID),
        client: client(),
    });
    let (_, action) = resolver_step(state, ResolverEvent::LookupDone { found: Some(row) });
    assert!(matches!(action, ResolverAction::Finish { session } if !session.was_created));
}

#[test]
fn unknown_cookie_falls_through_to_creation() {
    let (state, _) = resolver_step(ResolverState::Start, ResolverEvent::Request {
        token: Some(KNOWN_ID),
        client: client(),
    });
    let (state, action) = resolver_step(state, ResolverEvent::LookupDone { found: None });
    assert!(matches!(state, ResolverState::AwaitingCreate { .. }));
    assert!(matches!(action, ResolverAction::CreateSession { .. }));
}

#[test]
fn failed_lookup_falls_through_to_creation() {
    let (state, _) = resolver_step(ResolverState::Start, ResolverEvent::Request {
        token: Some(KNOWN_ID),
        client: client(),
    });
    let (state, action) = resolver_step(state, ResolverEvent::LookupFailed);
    assert!(matches!(state, ResolverState::AwaitingCreate { .. }));
    match action {
        ResolverAction::CreateSession { ip_address, user_agent } => {
            assert_eq!(ip_address, "203.0.113.9");
            assert_eq!(user_agent, "tests/1.0");
        }
        other => panic!("expected a creation, got {:?}", other),
    }
}

#[test]
fn failed_creation_fails_the_request() {
    let (state, _) = resolver_step(ResolverState::Start, ResolverEvent::Request {
        token: None,
        client: client(),
    });
    let (state, action) = resolver_step(state, ResolverEvent::CreateFailed);
    assert!(matches!(state, ResolverState::Failed));
    match action {
        ResolverAction::Fail { error } => assert_eq!(
            error,
            BeedleError::StorageUnavailable { operation: StoreOperation::CreateSession }
        ),
        other => panic!("expected a failure, got {:?}", other),
    }
    let (state, action) = resolver_step(state, ResolverEvent::LookupFailed);
    assert!(matches!(state, ResolverState::Failed));
    assert!(matches!(action, ResolverAction::Ignore));
}

#[test]
fn unexpected_event_is_ignored() {
    let (state, action) = resolver_step(ResolverState::Start, ResolverEvent::CreateFailed);
    assert!(matches!(state, ResolverState::Start));
    assert!(matches!(action, ResolverAction::Ignore));
    let (state, _) = resolver_step(state, ResolverEvent::Request {
        token: Some(KNOWN_ID),
        client: client(),
    });
    let (state, action) = resolver_step(state, ResolverEvent::CreateFailed);
    assert!(matches!(state, ResolverState::AwaitingLookup { token: KNOWN_ID, .. }));
    assert!(matches!(action, ResolverAction::Ignore));
}

#[test]
fn undecodable_stored_cart_becomes_empty_cart() {
    let (state, _) = resolver_step(ResolverState::Start, ResolverEvent::Request {
        token: Some(KNOWN_ID),
        client: client(),
    });
    let (_, action) = resolver_step(state, ResolverEvent::LookupDone {
        found: Some(stored_row(KNOWN_ID, None)),
    });
    match action {
        ResolverAction::Finish { session } => assert_eq!(session.cart, Vec::<CartItem>::new()),
        other => panic!("expected a session, got {:?}", other),
    }
    assert_eq!(cart_from_stored(None), Vec::<CartItem>::new());
    let kept = vec![CartItem { product_id: 1, quantity: 1 }];
    assert_eq!(cart_from_stored(Some(kept.clone())), kept);
}

#[test]
fn session_tokens_parse_in_every_form_that_is_written() {
    assert_eq!(parse_session_token(Some(KNOWN_TEXT)), Some(KNOWN_ID));
    assert_eq!(parse_session_token(Some("a1a2a3a4b1b2c1c2d1d2d3d4d5d6d7d8")), Some(KNOWN_ID));
    assert_eq!(parse_session_token(Some("A1A2A3A4-B1B2-C1C2-D1D2-D3D4D5D6D7D8")), Some(KNOWN_ID));
    assert_eq!(parse_session_token(Some("")), None);
    assert_eq!(parse_session_token(Some("not-a-session")), None);
    assert_eq!(parse_session_token(Some("a1a2a3a4-b1b2-c1c2-d1d2-d3d4d5d6d7d")), None);
    assert_eq!(parse_session_token(None), None);
}

#[test]
fn new_session_record_expires_after_seven_days() {
    assert_eq!(SESSION_TTL_SECS, 7 * 24 * 60 * 60);
    let row = session_record(KNOWN_ID, 1_700_000_000, "203.0.113.9", "tests/1.0");
    assert_eq!(row.session_id, KNOWN_ID);
    assert_eq!(row.user_id, None);
    assert_eq!(row.created_at, 1_700_000_000);
    assert_eq!(row.updated_at, 1_700_000_000);
    assert_eq!(row.expires_at, 1_700_604_800);
    assert_eq!(row.ip_address.as_deref(), Some("203.0.113.9"));
    assert_eq!(row.user_agent.as_deref(), Some("tests/1.0"));
    assert_eq!(row.cart_data, Some(Vec::new()));
}

#[test]
fn created_sessions_have_fresh_random_identifiers() {
    let first = create_new_session("203.0.113.9", "tests/1.0");
    let second = create_new_session("203.0.113.9", "tests/1.0");
    assert_ne!(first.session_id, second.session_id);
    for row in [&first, &second] {
        // version 4, RFC 4122 variant
        assert_eq!((row.session_id >> 76) & 0xf, 4);
        assert_eq!((row.session_id >> 62) & 0x3, 2);
        assert_eq!(row.expires_at, row.created_at + SESSION_TTL_SECS);
        assert_eq!(row.updated_at, row.created_at);
        // The clock is read: the tests do not run before 2023.
        assert!(row.created_at > 1_672_531_200);
        assert_eq!(row.cart_data, Some(Vec::new()));
        assert_eq!(row.user_id, None);
    }
}

#[test]
fn session_cookie_carries_the_identifier_as_text() {
    let cookie = ensure_session_cookie(KNOWN_ID);
    assert_eq!(cookie.name, "session_id");
    assert_eq!(cookie.value, KNOWN_TEXT);
    assert_eq!(cookie.path, "/");
    assert!(cookie.http_only);
    assert_eq!(cookie.max_age_secs, 604_800);
    assert_eq!(parse_session_token(Some(&cookie.value)), Some(KNOWN_ID));
}

#[test]
fn cookie_round_trips_for_a_created_session() {
    let row = create_new_session("203.0.113.9", "tests/1.0");
    let cookie = ensure_session_cookie(row.session_id);
    assert_eq!(parse_session_token(Some(&cookie.value)), Some(row.session_id));
}

#[test]
fn cookie_is_due_only_for_a_created_session() {
    assert!(cookie_for(&session_with(Vec::new(), false)).is_none());
    let cookie = cookie_for(&session_with(Vec::new(), true));
    assert_eq!(cookie.map(|c| c.value), Some(KNOWN_TEXT.to_string()));
}

#[test]
fn write_back_carries_the_whole_cart() {
    let cart =
        vec![CartItem { product_id: 4, quantity: 2 }, CartItem { product_id: 9, quantity: 1 }];
    let update = update_session_cart(KNOWN_ID, &cart);
    assert_eq!(update.session_id, KNOWN_ID);
    assert_eq!(update.cart, cart);
    assert!(update.updated_at > 1_672_531_200);
}

#[test]
fn write_back_that_reached_no_row_is_reported() {
    assert_eq!(
        confirm_session_write(KNOWN_ID, 0),
        Err(BeedleError::SessionRowMissing { session_id: KNOWN_ID })
    );
    assert_eq!(confirm_session_write(KNOWN_ID, 1), Ok(()));
    assert_eq!(confirm_session_write(KNOWN_ID, 2), Ok(()));
}

#[test]
fn cart_item_count_sums_quantities() {
    let cart =
        vec![CartItem { product_id: 4, quantity: 2 }, CartItem { product_id: 9, quantity: 5 }];
    assert_eq!(get_cart_item_count(&session_with(cart, false)), Some(7));
    assert_eq!(get_cart_item_count(&session_with(Vec::new(), false)), Some(0));
    let full = vec![CartItem { product_id: 1, quantity: u32::MAX }];
    assert_eq!(get_cart_item_count(&session_with(full, false)), Some(u32::MAX));
    let over = vec![
        CartItem { product_id: 1, quantity: u32::MAX },
        CartItem { product_id: 2, quantity: 1 },
    ];
    assert_eq!(get_cart_item_count(&session_with(over, false)), None);
}
