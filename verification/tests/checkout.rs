use beedle::cart::CartItem;
use beedle::checkout::{
    cart_product_ids, checkout_step, order_total, CheckoutAction, CheckoutEvent, CheckoutState,
};
use beedle::errors::{BeedleError, StoreOperation};
use beedle::inventory::update_inventory;
use beedle::product::{find_product, Product, ProductPath};
use beedle::session::SessionInfo;

fn shopper(cart: Vec<CartItem>, was_created: bool) -> SessionInfo {
    SessionInfo {
        session_id: 0x550e8400e29b41d4a716446655440000,
        was_created,
        user_id: None,
        cart,
        ip_address: "203.0.113.9".to_string(),
        user_agent: "tests/1.0".to_string(),
    }
}

fn item(product_id: i32, quantity: u32) -> CartItem {
    CartItem { product_id, quantity }
}

fn product(id: i32, price: i64, inventory: i32) -> Product {
    Product { id, price, inventory }
}

fn begin(cart: Vec<CartItem>) -> (CheckoutState, CheckoutAction) {
    checkout_step(CheckoutState::Started, CheckoutEvent::Begin {
        session: shopper(cart, false),
        payment_token: "tok_visa".to_string(),
    })
}

fn paid(cart: Vec<CartItem>, products: Vec<Product>) -> CheckoutState {
    let (state, _) = begin(cart);
    let (state, _) = checkout_step(state, CheckoutEvent::ProductsLoaded { products });
    let (state, _) = checkout_step(state, CheckoutEvent::PaymentResult { authorized: true });
    state
}

#[test]
fn checkout_of_empty_cart_is_rejected_without_touching_storage() {
    let (state, action) = begin(Vec::new());
    assert!(matches!(state, CheckoutState::Rejected));
    assert!(matches!(action, CheckoutAction::Fail { error: BeedleError::EmptyCart }));
    // Whatever comes after, nothing more is asked for.
    let (state, action) = checkout_step(state, CheckoutEvent::PaymentResult { authorized: true });
    assert!(matches!(state, CheckoutState::Rejected));
    assert!(matches!(action, CheckoutAction::Ignore));
    let (state, action) = checkout_step(state, CheckoutEvent::InventoryResult { outcome: Ok(()) });
    assert!(matches!(state, CheckoutState::Rejected));
    assert!(matches!(action, CheckoutAction::Ignore));
    let mut stock = vec![product(1, 100, 5)];
    assert_eq!(update_inventory(&mut stock, &Vec::new()), Ok(()));
    assert_eq!(stock, vec![product(1, 100, 5)]);
}

#[test]
fn checkout_runs_from_pricing_to_completion() {
    let cart = vec![item(1, 2), item(2, 1)];
    let (state, action) = begin(cart.clone());
    match action {
        CheckoutAction::LoadProducts { product_ids } => assert_eq!(product_ids, vec![1, 2]),
        other => panic!("expected a load, got {:?}", other),
    }
    let products = vec![product(2, 1999, 4), product(1, 250, 10)];
    let (state, action) = checkout_step(state, CheckoutEvent::ProductsLoaded { products });
    match action {
        CheckoutAction::Authorize { amount, payment_token } => {
            assert_eq!(amount.as_cents(), 2 * 250 + 1999);
            assert_eq!(payment_token, "tok_visa");
        }
        other => panic!("expected an authorization, got {:?}", other),
    }
    assert!(matches!(state, CheckoutState::PaymentPending { .. }));
    let (state, action) = checkout_step(state, CheckoutEvent::PaymentResult { authorized: true });
    match action {
        CheckoutAction::CommitInventory { cart: to_commit } => assert_eq!(to_commit, cart),
        other => panic!("expected a commit, got {:?}", other),
    }
    let (state, action) = checkout_step(state, CheckoutEvent::InventoryResult { outcome: Ok(()) });
    match action {
        CheckoutAction::WriteCart { session_id, cart } => {
            assert_eq!(session_id, 0x550e8400e29b41d4a716446655440000);
            assert_eq!(cart, Vec::<CartItem>::new());
        }
        other => panic!("expected a write, got {:?}", other),
    }
    assert!(matches!(
        &state,
        CheckoutState::InventoryCommitted { session } if session.cart.is_empty()
    ));
    let (state, action) = checkout_step(state, CheckoutEvent::CartWritten { rows_updated: 1 });
    assert!(matches!(state, CheckoutState::Completed));
    assert!(matches!(action, CheckoutAction::Complete { cookie: None }));
}

#[test]
fn declined_payment_leaves_stock_and_cart_alone() {
    let (state, _) = begin(vec![item(1, 2)]);
    let (state, _) =
        checkout_step(state, CheckoutEvent::ProductsLoaded { products: vec![product(1, 250, 10)] });
    let (state, action) = checkout_step(state, CheckoutEvent::PaymentResult { authorized: false });
    assert!(matches!(state, CheckoutState::PaymentFailed));
    assert!(matches!(action, CheckoutAction::Fail { error: BeedleError::PaymentFailed }));
    let (state, action) = checkout_step(state, CheckoutEvent::InventoryResult { outcome: Ok(()) });
    assert!(matches!(state, CheckoutState::PaymentFailed));
    assert!(matches!(action, CheckoutAction::Ignore));
}

#[test]
fn insufficient_stock_ends_the_checkout_with_the_cart_kept() {
    let state = paid(vec![item(1, 2)], vec![product(1, 250, 10)]);
    let short = BeedleError::InsufficientInventory { product_id: 1, requested: 2, in_stock: 1 };
    let (state, action) =
        checkout_step(state, CheckoutEvent::InventoryResult { outcome: Err(short) });
    assert!(matches!(state, CheckoutState::InventoryInsufficient));
    match action {
        CheckoutAction::Fail { error } => assert_eq!(error, short),
        other => panic!("expected a failure, got {:?}", other),
    }
    let (_, action) = checkout_step(state, CheckoutEvent::CartWritten { rows_updated: 1 });
    assert!(matches!(action, CheckoutAction::Ignore));
}

#[test]
fn storage_failure_during_commit_is_not_taken_for_missing_stock() {
    let state = paid(vec![item(1, 2)], vec![product(1, 250, 10)]);
    let down = BeedleError::StorageUnavailable { operation: StoreOperation::UpdateInventory };
    let (state, action) =
        checkout_step(state, CheckoutEvent::InventoryResult { outcome: Err(down) });
    assert!(matches!(state, CheckoutState::Failed));
    match action {
        CheckoutAction::Fail { error } => assert_eq!(error, down),
        other => panic!("expected a failure, got {:?}", other),
    }
}

#[test]
fn cart_write_that_reached_no_row_fails_the_checkout() {
    let state = paid(vec![item(1, 2)], vec![product(1, 250, 10)]);
    let (state, _) = checkout_step(state, CheckoutEvent::InventoryResult { outcome: Ok(()) });
    let (state, action) = checkout_step(state, CheckoutEvent::CartWritten { rows_updated: 0 });
    assert!(matches!(state, CheckoutState::Failed));
    match action {
        CheckoutAction::Fail { error } => assert_eq!(
            error,
            BeedleError::SessionRowMissing { session_id: 0x550e8400e29b41d4a716446655440000 }
        ),
        other => panic!("expected a failure, got {:?}", other),
    }
}

#[test]
fn failed_loads_and_writes_fail_the_checkout() {
    let (state, _) = begin(vec![item(1, 2)]);
    let (state, action) = checkout_step(state, CheckoutEvent::ProductsLoadFailed);
    assert!(matches!(state, CheckoutState::Failed));
    assert!(matches!(
        action,
        CheckoutAction::Fail {
            error: BeedleError::StorageUnavailable { operation: StoreOperation::LoadProduct }
        }
    ));
    let state = paid(vec![item(1, 2)], vec![product(1, 250, 10)]);
    let (state, _) = checkout_step(state, CheckoutEvent::InventoryResult { outcome: Ok(()) });
    let (state, action) = checkout_step(state, CheckoutEvent::CartWriteFailed);
    assert!(matches!(state, CheckoutState::Failed));
    assert!(matches!(
        action,
        CheckoutAction::Fail {
            error: BeedleError::StorageUnavailable { operation: StoreOperation::UpdateSessionCart }
        }
    ));
}

#[test]
fn new_session_gets_its_cookie_with_the_completion() {
    let (state, _) = checkout_step(CheckoutState::Started, CheckoutEvent::Begin {
        session: shopper(vec![item(1, 1)], true),
        payment_token: "tok".to_string(),
    });
    let (state, _) =
        checkout_step(state, CheckoutEvent::ProductsLoaded { products: vec![product(1, 5, 1)] });
    let (state, _) = checkout_step(state, CheckoutEvent::PaymentResult { authorized: true });
    let (state, _) = checkout_step(state, CheckoutEvent::InventoryResult { outcome: Ok(()) });
    let (_, action) = checkout_step(state, CheckoutEvent::CartWritten { rows_updated: 1 });
    match action {
        CheckoutAction::Complete { cookie: Some(cookie) } => {
            assert_eq!(cookie.value, "550e8400-e29b-41d4-a716-446655440000");
        }
        other => panic!("expected a completion with a cookie, got {:?}", other),
    }
}

#[test]
fn order_total_multiplies_and_sums() {
    let products = vec![product(1, 250, 10), product(2, 1999, 4), product(3, 1, 0)];
    let cart = vec![item(2, 3), item(1, 4)];
    assert_eq!(order_total(&cart, &products).map(|p| p.as_cents()), Ok(3 * 1999 + 4 * 250));
    assert_eq!(order_total(&Vec::new(), &products).map(|p| p.as_cents()), Ok(0));
}

#[test]
fn order_total_needs_every_product_and_a_total_that_fits() {
    let products = vec![product(1, 250, 10)];
    assert_eq!(
        order_total(&vec![item(1, 1), item(8, 1)], &products).map(|p| p.as_cents()),
        Err(BeedleError::ProductNotFound { product_id: 8 })
    );
    let dear = vec![product(1, i64::MAX, 10)];
    assert_eq!(
        order_total(&vec![item(1, 1)], &dear).map(|p| p.as_cents()),
        Ok(i64::MAX)
    );
    assert_eq!(
        order_total(&vec![item(1, 2)], &dear).map(|p| p.as_cents()),
        Err(BeedleError::OrderTooLarge)
    );
    let (state, _) = begin(vec![item(1, 2)]);
    let (state, action) = checkout_step(state, CheckoutEvent::ProductsLoaded { products: dear });
    assert!(matches!(state, CheckoutState::Failed));
    assert!(matches!(action, CheckoutAction::Fail { error: BeedleError::OrderTooLarge }));
}

#[test]
fn cart_product_ids_follow_the_cart() {
    assert_eq!(cart_product_ids(&vec![item(9, 1), item(2, 4), item(9, 2)]), vec![9, 2, 9]);
    assert_eq!(cart_product_ids(&Vec::new()), Vec::<i32>::new());
}

#[test]
fn inventory_is_decremented_for_every_line() {
    let mut stock = vec![product(1, 250, 10), product(2, 1999, 4), product(3, 1, 7)];
    let cart = vec![item(2, 4), item(1, 3)];
    assert_eq!(update_inventory(&mut stock, &cart), Ok(()));
    assert_eq!(stock, vec![product(1, 250, 7), product(2, 1999, 0), product(3, 1, 7)]);
}

#[test]
fn one_short_line_leaves_every_inventory_untouched() {
    // A has enough, B has not: neither is decremented.
    let mut stock = vec![product(1, 250, 10), product(2, 1999, 1)];
    let cart = vec![item(1, 3), item(2, 2)];
    assert_eq!(
        update_inventory(&mut stock, &cart),
        Err(BeedleError::InsufficientInventory { product_id: 2, requested: 2, in_stock: 1 })
    );
    assert_eq!(stock, vec![product(1, 250, 10), product(2, 1999, 1)]);
}

#[test]
fn missing_product_leaves_every_inventory_untouched() {
    let mut stock = vec![product(1, 250, 10)];
    let cart = vec![item(1, 3), item(5, 1)];
    assert_eq!(
        update_inventory(&mut stock, &cart),
        Err(BeedleError::ProductNotFound { product_id: 5 })
    );
    assert_eq!(stock, vec![product(1, 250, 10)]);
}

#[test]
fn the_last_unit_is_sold_once() {
    let mut stock = vec![product(1, 250, 1)];
    let first = vec![item(1, 1)];
    let second = vec![item(1, 1)];
    assert_eq!(update_inventory(&mut stock, &first), Ok(()));
    assert_eq!(stock, vec![product(1, 250, 0)]);
    assert_eq!(
        update_inventory(&mut stock, &second),
        Err(BeedleError::InsufficientInventory { product_id: 1, requested: 1, in_stock: 0 })
    );
    assert_eq!(stock, vec![product(1, 250, 0)]);
}

#[test]
fn two_lines_for_one_product_draw_on_the_same_stock() {
    let mut stock = vec![product(1, 250, 5)];
    assert_eq!(update_inventory(&mut stock, &vec![item(1, 3), item(1, 2)]), Ok(()));
    assert_eq!(stock, vec![product(1, 250, 0)]);
    let mut stock = vec![product(1, 250, 5)];
    assert_eq!(
        update_inventory(&mut stock, &vec![item(1, 3), item(1, 3)]),
        Err(BeedleError::InsufficientInventory { product_id: 1, requested: 3, in_stock: 2 })
    );
    assert_eq!(stock, vec![product(1, 250, 5)]);
}

#[test]
fn huge_quantities_are_refused_not_wrapped() {
    let mut stock = vec![product(1, 250, i32::MAX)];
    assert_eq!(
        update_inventory(&mut stock, &vec![item(1, u32::MAX)]),
        Err(BeedleError::InsufficientInventory {
            product_id: 1,
            requested: u32::MAX,
            in_stock: i32::MAX
        })
    );
    assert_eq!(stock, vec![product(1, 250, i32::MAX)]);
    assert_eq!(update_inventory(&mut stock, &vec![item(1, i32::MAX as u32)]), Ok(()));
    assert_eq!(stock, vec![product(1, 250, 0)]);
}

#[test]
fn ceiling_is_the_lesser_of_stock_and_cap() {
    assert_eq!(product(1, 1, 5).max_allowed(), 5);
    assert_eq!(product(1, 1, 99).max_allowed(), 99);
    assert_eq!(product(1, 1, 100).max_allowed(), 99);
    assert_eq!(product(1, 1, 0).max_allowed(), 0);
}

#[test]
fn find_product_gives_the_first_match() {
    let products = vec![product(4, 1, 1), product(7, 2, 2), product(4, 3, 3)];
    assert_eq!(find_product(&products, 4), Some(0));
    assert_eq!(find_product(&products, 7), Some(1));
    assert_eq!(find_product(&products, 8), None);
    assert_eq!(ProductPath { product_id: 7 }.product_id, 7);
}
