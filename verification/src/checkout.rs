//! The checkout: payment first, then the stock, all or nothing.
//!
//! The coordinator decides; the caller talks to storage and to the payment
//! provider:
//!
//! ```text
//! Started --Begin--> Pricing --prices--> PaymentPending --authorized--> PaymentAuthorized
//!    | empty cart       | no price           | declined                     |
//!    v                  v                    v                              |
//! Rejected            Failed            PaymentFailed                       |
//!                                                                           |
//!      Completed <--written-- InventoryCommitted <--committed--------------+
//!                                                   \-not covered--> InventoryInsufficient
//! ```
//!
//! The stock is touched only after the payment was authorized, and the cart
//! is emptied only after the stock was committed. Every state on the bottom
//! and right edge of the picture is final: it ignores whatever comes after.

use vstd::prelude::*;
use crate::cart::CartItem;
use crate::errors::{BeedleError, StoreOperation};
use crate::price::Price;
use crate::product::{find_product, first_with_id, has_id, Product};
use crate::session::{
    cookie_due,
    cookie_for,
    opt_cookie,
    SessionCookie,
    SessionCookieView,
    SessionInfo,
    SessionInfoView,
};

verus! {

/// The total of the order after each line of `cart` has been priced in turn
/// from `products`, in cents, or the reason why there is none: a line names a
/// product that is not there, or the running total leaves the range of an
/// amount of money.
pub open spec fn order_total_of(products: Seq<Product>, cart: Seq<CartItem>) -> Result<
    int,
    BeedleError,
>
    decreases cart.len(),
{
    if cart.len() == 0 {
        Ok(0)
    } else {
        match order_total_of(products, cart.drop_last()) {
            Err(error) => Err(error),
            Ok(sum) => {
                let line = cart.last();
                if !has_id(products, line.product_id) {
                    Err(BeedleError::ProductNotFound { product_id: line.product_id })
                } else {
                    let total = sum + products[first_with_id(products, line.product_id)].price
                        * line.quantity;
                    if i64::MIN <= total <= i64::MAX {
                        Ok(total)
                    } else {
                        Err(BeedleError::OrderTooLarge)
                    }
                }
            },
        }
    }
}

/// A failure to price the first `k` lines is the failure to price the cart.
pub proof fn lemma_pricing_failure_stands(products: Seq<Product>, cart: Seq<CartItem>, k: int)
    requires
        0 <= k <= cart.len(),
        order_total_of(products, cart.take(k)) is Err,
    ensures
        order_total_of(products, cart) == order_total_of(products, cart.take(k)),
    decreases cart.len() - k,
{
    if k < cart.len() {
        assert(cart.take(k + 1).drop_last() == cart.take(k));
        lemma_pricing_failure_stands(products, cart, k + 1);
    } else {
        assert(cart.take(k) == cart);
    }
}

/// The total of the order for `cart` at the prices of `products`: see
/// [`order_total_of`].
pub fn order_total(cart: &Vec<CartItem>, products: &Vec<Product>) -> (total: Result<
    Price,
    BeedleError,
>)
    ensures
        match total {
            Ok(amount) => order_total_of(products@, cart@) == Ok::<int, BeedleError>(amount@),
            Err(error) => order_total_of(products@, cart@) == Err::<int, BeedleError>(error),
        },
{
    let mut sum: i64 = 0;
    let mut i: usize = 0;
    while i < cart.len()
        invariant
            i <= cart.len(),
            order_total_of(products@, cart@.take(i as int)) == Ok::<int, BeedleError>(sum as int),
        decreases cart.len() - i,
    {
        let line = cart[i];
        proof {
            assert(cart@.take(i + 1).drop_last() == cart@.take(i as int));
        }
        match find_product(products, line.product_id) {
            None => {
                proof {
                    lemma_pricing_failure_stands(products@, cart@, i + 1);
                }
                return Err(BeedleError::ProductNotFound { product_id: line.product_id });
            },
            Some(at) => {
                let price = products[at].price;
                assert(-0x8000_0000_0000_0000_0000_0000 <= price * line.quantity
                    <= 0x8000_0000_0000_0000_0000_0000) by (nonlinear_arith)
                    requires
                        -0x8000_0000_0000_0000 <= price < 0x8000_0000_0000_0000,
                        0 <= line.quantity < 0x1_0000_0000,
                ;
                let wide: i128 = sum as i128 + price as i128 * line.quantity as i128;
                if wide < i64::MIN as i128 || wide > i64::MAX as i128 {
                    proof {
                        lemma_pricing_failure_stands(products@, cart@, i + 1);
                    }
                    return Err(BeedleError::OrderTooLarge);
                }
                sum = wide as i64;
            },
        }
        i += 1;
    }
    assert(cart@.take(i as int) == cart@);
    Ok(Price::from_cents(sum))
}

/// The products that the lines of `cart` name, line by line.
pub open spec fn product_ids_of(cart: Seq<CartItem>) -> Seq<i32> {
    Seq::new(cart.len(), |i: int| cart[i].product_id)
}

/// The products that the lines of the cart name, line by line.
pub fn cart_product_ids(cart: &Vec<CartItem>) -> (ids: Vec<i32>)
    ensures
        ids@ == product_ids_of(cart@),
{
    let mut ids: Vec<i32> = Vec::new();
    let mut i: usize = 0;
    while i < cart.len()
        invariant
            i <= cart.len(),
            ids@ == product_ids_of(cart@.take(i as int)),
        decreases cart.len() - i,
    {
        ids.push(cart[i].product_id);
        i += 1;
    }
    ids
}

/// Where a checkout stands.
#[derive(Debug)]
pub enum CheckoutState {
    /// Nothing has been asked for.
    Started,
    /// Storage has been asked for the products of the cart, to price them.
    Pricing { session: SessionInfo, payment_token: String },
    /// The payment provider has been asked to authorize the payment.
    PaymentPending { session: SessionInfo },
    /// The payment is authorized; storage has been asked to take the cart
    /// from the stock.
    PaymentAuthorized { session: SessionInfo },
    /// The stock is committed; storage has been asked to take the emptied
    /// cart.
    InventoryCommitted { session: SessionInfo },
    /// The order is through: paid, taken from stock, the cart emptied. Final.
    Completed,
    /// The cart was empty. Final; nothing was touched.
    Rejected,
    /// The payment was declined. Final; stock and cart are as they were.
    PaymentFailed,
    /// The stock did not cover the cart. Final; the stock is as it was.
    InventoryInsufficient,
    /// Storage failed, or a product of the cart has no price. Final.
    Failed,
}

/// What a [`CheckoutState`] holds, as mathematical values.
pub enum CheckoutStateView {
    Started,
    Pricing { session: SessionInfoView, payment_token: Seq<char> },
    PaymentPending { session: SessionInfoView },
    PaymentAuthorized { session: SessionInfoView },
    InventoryCommitted { session: SessionInfoView },
    Completed,
    Rejected,
    PaymentFailed,
    InventoryInsufficient,
    Failed,
}

impl View for CheckoutState {
    type V = CheckoutStateView;

    open spec fn view(&self) -> CheckoutStateView {
        match self {
            CheckoutState::Started => CheckoutStateView::Started,
            CheckoutState::Pricing { session, payment_token } => CheckoutStateView::Pricing {
                session: session@,
                payment_token: payment_token@,
            },
            CheckoutState::PaymentPending { session } => CheckoutStateView::PaymentPending {
                session: session@,
            },
            CheckoutState::PaymentAuthorized { session } => CheckoutStateView::PaymentAuthorized {
                session: session@,
            },
            CheckoutState::InventoryCommitted {
                session,
            } => CheckoutStateView::InventoryCommitted { session: session@ },
            CheckoutState::Completed => CheckoutStateView::Completed,
            CheckoutState::Rejected => CheckoutStateView::Rejected,
            CheckoutState::PaymentFailed => CheckoutStateView::PaymentFailed,
            CheckoutState::InventoryInsufficient => CheckoutStateView::InventoryInsufficient,
            CheckoutState::Failed => CheckoutStateView::Failed,
        }
    }
}

impl CheckoutStateView {
    /// Whether the checkout is over.
    pub open spec fn is_final(self) -> bool {
        self is Completed || self is Rejected || self is PaymentFailed
            || self is InventoryInsufficient || self is Failed
    }
}

/// What happened.
#[derive(Debug)]
pub enum CheckoutEvent {
    /// The visitor of `session` asked to check out, paying with
    /// `payment_token`.
    Begin { session: SessionInfo, payment_token: String },
    /// Storage answered with the products of the cart, as they are now.
    ProductsLoaded { products: Vec<Product> },
    /// Storage failed to answer for the products.
    ProductsLoadFailed,
    /// The payment provider answered.
    PaymentResult { authorized: bool },
    /// The stock transaction ended: committed, or rolled back for the reason
    /// given.
    InventoryResult { outcome: Result<(), BeedleError> },
    /// Storage wrote the emptied cart, to this many session rows.
    CartWritten { rows_updated: usize },
    /// Storage failed to write the emptied cart.
    CartWriteFailed,
}

/// What a [`CheckoutEvent`] holds, as mathematical values.
pub enum CheckoutEventView {
    Begin { session: SessionInfoView, payment_token: Seq<char> },
    ProductsLoaded { products: Seq<Product> },
    ProductsLoadFailed,
    PaymentResult { authorized: bool },
    InventoryResult { outcome: Result<(), BeedleError> },
    CartWritten { rows_updated: usize },
    CartWriteFailed,
}

impl View for CheckoutEvent {
    type V = CheckoutEventView;

    open spec fn view(&self) -> CheckoutEventView {
        match self {
            CheckoutEvent::Begin { session, payment_token } => CheckoutEventView::Begin {
                session: session@,
                payment_token: payment_token@,
            },
            CheckoutEvent::ProductsLoaded { products } => CheckoutEventView::ProductsLoaded {
                products: products@,
            },
            CheckoutEvent::ProductsLoadFailed => CheckoutEventView::ProductsLoadFailed,
            CheckoutEvent::PaymentResult { authorized } => CheckoutEventView::PaymentResult {
                authorized: *authorized,
            },
            CheckoutEvent::InventoryResult { outcome } => CheckoutEventView::InventoryResult {
                outcome: *outcome,
            },
            CheckoutEvent::CartWritten { rows_updated } => CheckoutEventView::CartWritten {
                rows_updated: *rows_updated,
            },
            CheckoutEvent::CartWriteFailed => CheckoutEventView::CartWriteFailed,
        }
    }
}

/// What the caller is to do next.
#[derive(Debug)]
pub enum CheckoutAction {
    /// Load these products from storage, as they are now.
    LoadProducts { product_ids: Vec<i32> },
    /// Ask the payment provider to authorize `amount`. Once; nothing is
    /// retried.
    Authorize { amount: Price, payment_token: String },
    /// Take `cart` from the stock in one storage transaction, with
    /// [`crate::inventory::update_inventory`] on the rows that it holds.
    CommitInventory { cart: Vec<CartItem> },
    /// Write `cart` back as the cart of the session `session_id`.
    WriteCart { session_id: u128, cart: Vec<CartItem> },
    /// Tell the visitor that the order is through, with the session's cookie
    /// if the session is new.
    Complete { cookie: Option<SessionCookie> },
    /// Fail the request with this error.
    Fail { error: BeedleError },
    /// Nothing: the event was not one that the checkout waits for.
    Ignore,
}

/// What a [`CheckoutAction`] holds, as mathematical values.
pub enum CheckoutActionView {
    LoadProducts { product_ids: Seq<i32> },
    Authorize { amount: int, payment_token: Seq<char> },
    CommitInventory { cart: Seq<CartItem> },
    WriteCart { session_id: u128, cart: Seq<CartItem> },
    Complete { cookie: Option<SessionCookieView> },
    Fail { error: BeedleError },
    Ignore,
}

impl View for CheckoutAction {
    type V = CheckoutActionView;

    open spec fn view(&self) -> CheckoutActionView {
        match self {
            CheckoutAction::LoadProducts { product_ids } => CheckoutActionView::LoadProducts {
                product_ids: product_ids@,
            },
            CheckoutAction::Authorize { amount, payment_token } => CheckoutActionView::Authorize {
                amount: amount@,
                payment_token: payment_token@,
            },
            CheckoutAction::CommitInventory { cart } => CheckoutActionView::CommitInventory {
                cart: cart@,
            },
            CheckoutAction::WriteCart { session_id, cart } => CheckoutActionView::WriteCart {
                session_id: *session_id,
                cart: cart@,
            },
            CheckoutAction::Complete { cookie } => CheckoutActionView::Complete {
                cookie: opt_cookie(*cookie),
            },
            CheckoutAction::Fail { error } => CheckoutActionView::Fail { error: *error },
            CheckoutAction::Ignore => CheckoutActionView::Ignore,
        }
    }
}

/// `session` with an empty cart.
pub open spec fn with_empty_cart(session: SessionInfoView) -> SessionInfoView {
    SessionInfoView { cart: Seq::empty(), ..session }
}

/// The step that fails the checkout with `error`.
pub open spec fn fail_with(error: BeedleError) -> (CheckoutStateView, CheckoutActionView) {
    (CheckoutStateView::Failed, CheckoutActionView::Fail { error })
}

/// The coordinator's transition function: the state after `event` and the
/// action that it asks for.
///
/// * A checkout of an empty cart is rejected at once. Any other has the
///   products of its cart loaded.
/// * With the products the order is priced, and the payment provider is
///   asked for the total. An order that cannot be priced fails.
/// * An authorized payment has the cart taken from the stock. A declined one
///   ends the checkout.
/// * A committed stock has the emptied cart written back. A stock that did
///   not cover the cart ends the checkout; so does any other failure of the
///   transaction.
/// * A written cart completes the checkout; a write that reached no row, or
///   that storage failed, fails it.
/// * An event that the state does not wait for changes nothing.
pub open spec fn checkout_next(state: CheckoutStateView, event: CheckoutEventView) -> (
    CheckoutStateView,
    CheckoutActionView,
) {
    match state {
        CheckoutStateView::Started => match event {
            CheckoutEventView::Begin { session, payment_token } => if session.cart.len() == 0 {
                (
                    CheckoutStateView::Rejected,
                    CheckoutActionView::Fail { error: BeedleError::EmptyCart },
                )
            } else {
                (
                    CheckoutStateView::Pricing { session, payment_token },
                    CheckoutActionView::LoadProducts { product_ids: product_ids_of(session.cart) },
                )
            },
            _ => (state, CheckoutActionView::Ignore),
        },
        CheckoutStateView::Pricing { session, payment_token } => match event {
            CheckoutEventView::ProductsLoaded { products } => match order_total_of(
                products,
                session.cart,
            ) {
                Ok(amount) => (
                    CheckoutStateView::PaymentPending { session },
                    CheckoutActionView::Authorize { amount, payment_token },
                ),
                Err(error) => fail_with(error),
            },
            CheckoutEventView::ProductsLoadFailed => fail_with(
                BeedleError::StorageUnavailable { operation: StoreOperation::LoadProduct },
            ),
            _ => (state, CheckoutActionView::Ignore),
        },
        CheckoutStateView::PaymentPending { session } => match event {
            CheckoutEventView::PaymentResult { authorized } => if authorized {
                (
                    CheckoutStateView::PaymentAuthorized { session },
                    CheckoutActionView::CommitInventory { cart: session.cart },
                )
            } else {
                (
                    CheckoutStateView::PaymentFailed,
                    CheckoutActionView::Fail { error: BeedleError::PaymentFailed },
                )
            },
            _ => (state, CheckoutActionView::Ignore),
        },
        CheckoutStateView::PaymentAuthorized { session } => match event {
            CheckoutEventView::InventoryResult { outcome } => match outcome {
                Ok(()) => (
                    CheckoutStateView::InventoryCommitted { session: with_empty_cart(session) },
                    CheckoutActionView::WriteCart {
                        session_id: session.session_id,
                        cart: Seq::empty(),
                    },
                ),
                Err(error) => if error is InsufficientInventory {
                    (
                        CheckoutStateView::InventoryInsufficient,
                        CheckoutActionView::Fail { error },
                    )
                } else {
                    fail_with(error)
                },
            },
            _ => (state, CheckoutActionView::Ignore),
        },
        CheckoutStateView::InventoryCommitted { session } => match event {
            CheckoutEventView::CartWritten { rows_updated } => if rows_updated == 0 {
                fail_with(BeedleError::SessionRowMissing { session_id: session.session_id })
            } else {
                (
                    CheckoutStateView::Completed,
                    CheckoutActionView::Complete { cookie: cookie_due(session) },
                )
            },
            CheckoutEventView::CartWriteFailed => fail_with(
                BeedleError::StorageUnavailable { operation: StoreOperation::UpdateSessionCart },
            ),
            _ => (state, CheckoutActionView::Ignore),
        },
        _ => (state, CheckoutActionView::Ignore),
    }
}

/// Fails the checkout with `error`.
fn failed(error: BeedleError) -> (next: (CheckoutState, CheckoutAction))
    ensures
        (next.0@, next.1@) == fail_with(error),
{
    (CheckoutState::Failed, CheckoutAction::Fail { error })
}

/// Takes one step of the checkout: see [`checkout_next`].
pub fn checkout_step(state: CheckoutState, event: CheckoutEvent) -> (next: (
    CheckoutState,
    CheckoutAction,
))
    ensures
        (next.0@, next.1@) == checkout_next(state@, event@),
{
    match state {
        CheckoutState::Started => match event {
            CheckoutEvent::Begin { session, payment_token } => {
                if session.cart.len() == 0 {
                    (
                        CheckoutState::Rejected,
                        CheckoutAction::Fail { error: BeedleError::EmptyCart },
                    )
                } else {
                    let product_ids = cart_product_ids(&session.cart);
                    (
                        CheckoutState::Pricing { session, payment_token },
                        CheckoutAction::LoadProducts { product_ids },
                    )
                }
            },
            _ => (CheckoutState::Started, CheckoutAction::Ignore),
        },
        CheckoutState::Pricing { session, payment_token } => match event {
            CheckoutEvent::ProductsLoaded { products } => {
                match order_total(&session.cart, &products) {
                    Ok(amount) => (
                        CheckoutState::PaymentPending { session },
                        CheckoutAction::Authorize { amount, payment_token },
                    ),
                    Err(error) => failed(error),
                }
            },
            CheckoutEvent::ProductsLoadFailed => failed(
                BeedleError::StorageUnavailable { operation: StoreOperation::LoadProduct },
            ),
            _ => (CheckoutState::Pricing { session, payment_token }, CheckoutAction::Ignore),
        },
        CheckoutState::PaymentPending { session } => match event {
            CheckoutEvent::PaymentResult { authorized } => {
                if authorized {
                    let cart = session.cart.clone();
                    (
                        CheckoutState::PaymentAuthorized { session },
                        CheckoutAction::CommitInventory { cart },
                    )
                } else {
                    (
                        CheckoutState::PaymentFailed,
                        CheckoutAction::Fail { error: BeedleError::PaymentFailed },
                    )
                }
            },
            _ => (CheckoutState::PaymentPending { session }, CheckoutAction::Ignore),
        },
        CheckoutState::PaymentAuthorized { session } => match event {
            CheckoutEvent::InventoryResult { outcome } => match outcome {
                Ok(()) => {
                    let mut session = session;
                    session.cart = Vec::new();
                    let session_id = session.session_id;
                    (
                        CheckoutState::InventoryCommitted { session },
                        CheckoutAction::WriteCart { session_id, cart: Vec::new() },
                    )
                },
                Err(error) => {
                    match error {
                        BeedleError::InsufficientInventory { .. } => (
                            CheckoutState::InventoryInsufficient,
                            CheckoutAction::Fail { error },
                        ),
                        _ => failed(error),
                    }
                },
            },
            _ => (CheckoutState::PaymentAuthorized { session }, CheckoutAction::Ignore),
        },
        CheckoutState::InventoryCommitted { session } => match event {
            CheckoutEvent::CartWritten { rows_updated } => {
                if rows_updated == 0 {
                    failed(BeedleError::SessionRowMissing { session_id: session.session_id })
                } else {
                    let cookie = cookie_for(&session);
                    (CheckoutState::Completed, CheckoutAction::Complete { cookie })
                }
            },
            CheckoutEvent::CartWriteFailed => failed(
                BeedleError::StorageUnavailable { operation: StoreOperation::UpdateSessionCart },
            ),
            _ => (CheckoutState::InventoryCommitted { session }, CheckoutAction::Ignore),
        },
        CheckoutState::Completed => (CheckoutState::Completed, CheckoutAction::Ignore),
        CheckoutState::Rejected => (CheckoutState::Rejected, CheckoutAction::Ignore),
        CheckoutState::PaymentFailed => (CheckoutState::PaymentFailed, CheckoutAction::Ignore),
        CheckoutState::InventoryInsufficient => (
            CheckoutState::InventoryInsufficient,
            CheckoutAction::Ignore,
        ),
        CheckoutState::Failed => (CheckoutState::Failed, CheckoutAction::Ignore),
    }
}

/// A checkout that is over stays over: a final state ignores every event and
/// asks for nothing more.
pub proof fn law_final_states_are_final(state: CheckoutStateView, event: CheckoutEventView)
    requires
        state.is_final(),
    ensures
        checkout_next(state, event) == (state, CheckoutActionView::Ignore),
{
}

/// The checkout of an empty cart is rejected with `EmptyCart` before anything
/// is asked of storage or of the payment provider, and it is over with that.
pub proof fn law_empty_cart_is_rejected(session: SessionInfoView, payment_token: Seq<char>)
    requires
        session.cart.len() == 0,
    ensures
        ({
            let first = checkout_next(
                CheckoutStateView::Started,
                CheckoutEventView::Begin { session, payment_token },
            );
            &&& first.0 == CheckoutStateView::Rejected
            &&& first.1 == CheckoutActionView::Fail { error: BeedleError::EmptyCart }
            &&& first.0.is_final()
        }),
{
}

/// The stock is asked for only by an authorized payment, and for the very
/// cart that was priced and paid.
pub proof fn law_stock_follows_payment(state: CheckoutStateView, event: CheckoutEventView)
    ensures
        checkout_next(state, event).1 matches CheckoutActionView::CommitInventory { cart } ==> {
            &&& state matches CheckoutStateView::PaymentPending { session }
            &&& event == CheckoutEventView::PaymentResult { authorized: true }
            &&& cart == session.cart
            &&& checkout_next(state, event).0 is PaymentAuthorized
        },
{
}

/// A declined payment ends the checkout with `PaymentFailed`: no later event
/// moves it, so neither the stock nor the cart is ever asked for.
pub proof fn law_declined_payment_ends_checkout(session: SessionInfoView)
    ensures
        ({
            let declined = checkout_next(
                CheckoutStateView::PaymentPending { session },
                CheckoutEventView::PaymentResult { authorized: false },
            );
            &&& declined.0 == CheckoutStateView::PaymentFailed
            &&& declined.1 == CheckoutActionView::Fail { error: BeedleError::PaymentFailed }
            &&& declined.0.is_final()
        }),
{
}

/// The cart is emptied only by a committed stock: a write of the cart is
/// asked for only then, and the cart that it carries is empty.
pub proof fn law_cart_cleared_after_commit(state: CheckoutStateView, event: CheckoutEventView)
    ensures
        checkout_next(state, event).1 matches CheckoutActionView::WriteCart {
            session_id,
            cart,
        } ==> {
            &&& state matches CheckoutStateView::PaymentAuthorized { session }
            &&& event matches CheckoutEventView::InventoryResult { outcome: Ok(_) }
            &&& session_id == session.session_id
            &&& cart.len() == 0
        },
{
}

} // verus!
