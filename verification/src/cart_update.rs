//! One request to change the quantity of a product in the cart.
//!
//! The flow decides; the caller talks to storage:
//!
//! ```text
//! Start --Submit--> AwaitingProduct --product--> AwaitingWrite --written--> Done
//!                        | no product, no stock,       | no row took it,
//!                        v or storage failed            v or storage failed
//!                      Failed                         Failed
//! ```
//!
//! The product is loaded anew for every request, so the ceiling for growth is
//! always that of the live stock. A request that fails before the write has
//! left the stored cart alone.

use vstd::prelude::*;
use crate::cart::{
    cart_wf,
    find_line,
    has_product,
    law_reconciled_cart_is_wf,
    quantity_in_cart,
    quantity_of,
    reconciled,
    update_cart_quantity,
    CartItem,
};
use crate::errors::{BeedleError, StoreOperation};
use crate::product::Product;
use crate::session::{
    cookie_due,
    cookie_for,
    opt_cookie,
    SessionCookie,
    SessionCookieView,
    SessionInfo,
    SessionInfoView,
};

verus! {

/// An offer to put a product back that the request has just removed.
#[derive(Clone, Copy, Debug, PartialEq, Eq, Structural)]
pub struct UndoOffer {
    pub product_id: i32,
    /// The quantity that the cart held before the removal.
    pub quantity: u32,
}

/// Where the flow stands.
#[derive(Debug)]
pub enum CartUpdateState {
    /// No request has been seen.
    Start,
    /// Storage has been asked for the product.
    AwaitingProduct { session: SessionInfo, product_id: i32, delta: i32 },
    /// Storage has been asked to take the changed cart of `session`.
    AwaitingWrite { session: SessionInfo, undo: Option<UndoOffer> },
    /// The cart was changed and stored. Final.
    Done,
    /// The request failed. Final.
    Failed,
}

/// What a [`CartUpdateState`] holds, as mathematical values.
pub enum CartUpdateStateView {
    Start,
    AwaitingProduct { session: SessionInfoView, product_id: i32, delta: i32 },
    AwaitingWrite { session: SessionInfoView, undo: Option<UndoOffer> },
    Done,
    Failed,
}

impl View for CartUpdateState {
    type V = CartUpdateStateView;

    open spec fn view(&self) -> CartUpdateStateView {
        match self {
            CartUpdateState::Start => CartUpdateStateView::Start,
            CartUpdateState::AwaitingProduct {
                session,
                product_id,
                delta,
            } => CartUpdateStateView::AwaitingProduct {
                session: session@,
                product_id: *product_id,
                delta: *delta,
            },
            CartUpdateState::AwaitingWrite { session, undo } => CartUpdateStateView::AwaitingWrite {
                session: session@,
                undo: *undo,
            },
            CartUpdateState::Done => CartUpdateStateView::Done,
            CartUpdateState::Failed => CartUpdateStateView::Failed,
        }
    }
}

/// What happened.
#[derive(Debug)]
pub enum CartUpdateEvent {
    /// The visitor of `session` asked to change the quantity of `product_id`
    /// by `delta`.
    Submit { session: SessionInfo, product_id: i32, delta: i32 },
    /// Storage answered for the product, with the product or with none.
    ProductLoaded { product: Option<Product> },
    /// Storage failed to answer for the product.
    ProductLoadFailed,
    /// Storage wrote the cart, to this many session rows.
    CartWritten { rows_updated: usize },
    /// Storage failed to write the cart.
    CartWriteFailed,
}

/// What a [`CartUpdateEvent`] holds, as mathematical values.
pub enum CartUpdateEventView {
    Submit { session: SessionInfoView, product_id: i32, delta: i32 },
    ProductLoaded { product: Option<Product> },
    ProductLoadFailed,
    CartWritten { rows_updated: usize },
    CartWriteFailed,
}

impl View for CartUpdateEvent {
    type V = CartUpdateEventView;

    open spec fn view(&self) -> CartUpdateEventView {
        match self {
            CartUpdateEvent::Submit { session, product_id, delta } => CartUpdateEventView::Submit {
                session: session@,
                product_id: *product_id,
                delta: *delta,
            },
            CartUpdateEvent::ProductLoaded { product } => CartUpdateEventView::ProductLoaded {
                product: *product,
            },
            CartUpdateEvent::ProductLoadFailed => CartUpdateEventView::ProductLoadFailed,
            CartUpdateEvent::CartWritten { rows_updated } => CartUpdateEventView::CartWritten {
                rows_updated: *rows_updated,
            },
            CartUpdateEvent::CartWriteFailed => CartUpdateEventView::CartWriteFailed,
        }
    }
}

/// What the caller is to do next.
#[derive(Debug)]
pub enum CartUpdateAction {
    /// Load the product from storage, as it is now.
    LoadProduct { product_id: i32 },
    /// Write `cart` back as the cart of the session `session_id`.
    WriteCart { session_id: u128, cart: Vec<CartItem> },
    /// Send the visitor to the cart page, with the offer to undo a removal if
    /// there is one, and with the session's cookie if the session is new.
    Redirect { undo: Option<UndoOffer>, cookie: Option<SessionCookie> },
    /// Fail the request with this error.
    Fail { error: BeedleError },
    /// Nothing: the event was not one that the flow waits for.
    Ignore,
}

/// What a [`CartUpdateAction`] holds, as mathematical values.
pub enum CartUpdateActionView {
    LoadProduct { product_id: i32 },
    WriteCart { session_id: u128, cart: Seq<CartItem> },
    Redirect { undo: Option<UndoOffer>, cookie: Option<SessionCookieView> },
    Fail { error: BeedleError },
    Ignore,
}

impl View for CartUpdateAction {
    type V = CartUpdateActionView;

    open spec fn view(&self) -> CartUpdateActionView {
        match self {
            CartUpdateAction::LoadProduct { product_id } => CartUpdateActionView::LoadProduct {
                product_id: *product_id,
            },
            CartUpdateAction::WriteCart { session_id, cart } => CartUpdateActionView::WriteCart {
                session_id: *session_id,
                cart: cart@,
            },
            CartUpdateAction::Redirect { undo, cookie } => CartUpdateActionView::Redirect {
                undo: *undo,
                cookie: opt_cookie(*cookie),
            },
            CartUpdateAction::Fail { error } => CartUpdateActionView::Fail { error: *error },
            CartUpdateAction::Ignore => CartUpdateActionView::Ignore,
        }
    }
}

/// The offer that follows a change of `before` into `after`: one to undo, with
/// the quantity held before, where the request did not ask for growth and the
/// product, held before, is gone.
pub open spec fn undo_offer(
    before: Seq<CartItem>,
    after: Seq<CartItem>,
    product_id: i32,
    delta: i32,
) -> Option<UndoOffer> {
    if has_product(before, product_id) && !has_product(after, product_id) && delta <= 0 {
        Some(UndoOffer { product_id, quantity: quantity_of(before, product_id) as u32 })
    } else {
        None
    }
}

/// `session` with `cart` for its cart.
pub open spec fn with_cart(session: SessionInfoView, cart: Seq<CartItem>) -> SessionInfoView {
    SessionInfoView { cart, ..session }
}

/// What the flow does once storage has answered for the product.
///
/// * No such product: the request fails, the cart untouched.
/// * Growth is asked for and the ceiling is below one, which is to say that
///   nothing is in stock: the request fails, the cart untouched.
/// * Otherwise the cart is reconciled under the product's ceiling and goes
///   to storage.
pub open spec fn on_product(
    session: SessionInfoView,
    product_id: i32,
    delta: i32,
    product: Option<Product>,
) -> (CartUpdateStateView, CartUpdateActionView) {
    match product {
        None => (
            CartUpdateStateView::Failed,
            CartUpdateActionView::Fail { error: BeedleError::ProductNotFound { product_id } },
        ),
        Some(p) => if delta > 0 && p.spec_max_allowed() < 1 {
            (
                CartUpdateStateView::Failed,
                CartUpdateActionView::Fail {
                    error: BeedleError::InsufficientInventory {
                        product_id,
                        requested: delta as u32,
                        in_stock: p.inventory,
                    },
                },
            )
        } else {
            let cart = reconciled(session.cart, product_id, delta, p.spec_max_allowed());
            (
                CartUpdateStateView::AwaitingWrite {
                    session: with_cart(session, cart),
                    undo: undo_offer(session.cart, cart, product_id, delta),
                },
                CartUpdateActionView::WriteCart { session_id: session.session_id, cart },
            )
        },
    }
}

/// The flow's transition function: the state after `event` and the action
/// that it asks for.
///
/// * A submitted change has the product loaded.
/// * The loaded product decides: see [`on_product`]. A load that fails fails
///   the request.
/// * A write that reached no row fails the request: the session row is
///   missing. So does a write that storage failed. Any other write ends the
///   request with a redirect.
/// * An event that the state does not wait for changes nothing.
pub open spec fn cart_update_next(state: CartUpdateStateView, event: CartUpdateEventView) -> (
    CartUpdateStateView,
    CartUpdateActionView,
) {
    match state {
        CartUpdateStateView::Start => match event {
            CartUpdateEventView::Submit { session, product_id, delta } => (
                CartUpdateStateView::AwaitingProduct { session, product_id, delta },
                CartUpdateActionView::LoadProduct { product_id },
            ),
            _ => (state, CartUpdateActionView::Ignore),
        },
        CartUpdateStateView::AwaitingProduct { session, product_id, delta } => match event {
            CartUpdateEventView::ProductLoaded { product } => on_product(
                session,
                product_id,
                delta,
                product,
            ),
            CartUpdateEventView::ProductLoadFailed => (
                CartUpdateStateView::Failed,
                CartUpdateActionView::Fail {
                    error: BeedleError::StorageUnavailable {
                        operation: StoreOperation::LoadProduct,
                    },
                },
            ),
            _ => (state, CartUpdateActionView::Ignore),
        },
        CartUpdateStateView::AwaitingWrite { session, undo } => match event {
            CartUpdateEventView::CartWritten { rows_updated } => if rows_updated == 0 {
                (
                    CartUpdateStateView::Failed,
                    CartUpdateActionView::Fail {
                        error: BeedleError::SessionRowMissing { session_id: session.session_id },
                    },
                )
            } else {
                (
                    CartUpdateStateView::Done,
                    CartUpdateActionView::Redirect { undo, cookie: cookie_due(session) },
                )
            },
            CartUpdateEventView::CartWriteFailed => (
                CartUpdateStateView::Failed,
                CartUpdateActionView::Fail {
                    error: BeedleError::StorageUnavailable {
                        operation: StoreOperation::UpdateSessionCart,
                    },
                },
            ),
            _ => (state, CartUpdateActionView::Ignore),
        },
        CartUpdateStateView::Done => (state, CartUpdateActionView::Ignore),
        CartUpdateStateView::Failed => (state, CartUpdateActionView::Ignore),
    }
}

/// Decides on the loaded product: see [`on_product`].
fn apply_to_cart(
    session: SessionInfo,
    product_id: i32,
    delta: i32,
    product: Option<Product>,
) -> (next: (CartUpdateState, CartUpdateAction))
    ensures
        (next.0@, next.1@) == on_product(session@, product_id, delta, product),
{
    let product = match product {
        Some(p) => p,
        None => {
            return (
                CartUpdateState::Failed,
                CartUpdateAction::Fail { error: BeedleError::ProductNotFound { product_id } },
            );
        },
    };
    let max_allowed = product.max_allowed();
    if delta > 0 && max_allowed < 1 {
        return (
            CartUpdateState::Failed,
            CartUpdateAction::Fail {
                error: BeedleError::InsufficientInventory {
                    product_id,
                    requested: delta as u32,
                    in_stock: product.inventory,
                },
            },
        );
    }
    let mut session = session;
    let ghost before = session@;
    let session_id = session.session_id;
    let held = quantity_in_cart(&session.cart, product_id);
    update_cart_quantity(&mut session.cart, product_id, delta, max_allowed);
    let undo = match held {
        Some(quantity) => {
            if find_line(&session.cart, product_id).is_none() && delta <= 0 {
                Some(UndoOffer { product_id, quantity })
            } else {
                None
            }
        },
        None => None,
    };
    let cart = session.cart.clone();
    (
        CartUpdateState::AwaitingWrite { session, undo },
        CartUpdateAction::WriteCart { session_id, cart },
    )
}

/// Takes one step of the flow: see [`cart_update_next`].
pub fn cart_update_step(state: CartUpdateState, event: CartUpdateEvent) -> (next: (
    CartUpdateState,
    CartUpdateAction,
))
    ensures
        (next.0@, next.1@) == cart_update_next(state@, event@),
{
    match state {
        CartUpdateState::Start => match event {
            CartUpdateEvent::Submit { session, product_id, delta } => (
                CartUpdateState::AwaitingProduct { session, product_id, delta },
                CartUpdateAction::LoadProduct { product_id },
            ),
            _ => (CartUpdateState::Start, CartUpdateAction::Ignore),
        },
        CartUpdateState::AwaitingProduct { session, product_id, delta } => match event {
            CartUpdateEvent::ProductLoaded { product } => apply_to_cart(
                session,
                product_id,
                delta,
                product,
            ),
            CartUpdateEvent::ProductLoadFailed => (
                CartUpdateState::Failed,
                CartUpdateAction::Fail {
                    error: BeedleError::StorageUnavailable {
                        operation: StoreOperation::LoadProduct,
                    },
                },
            ),
            _ => (
                CartUpdateState::AwaitingProduct { session, product_id, delta },
                CartUpdateAction::Ignore,
            ),
        },
        CartUpdateState::AwaitingWrite { session, undo } => match event {
            CartUpdateEvent::CartWritten { rows_updated } => {
                if rows_updated == 0 {
                    (
                        CartUpdateState::Failed,
                        CartUpdateAction::Fail {
                            error: BeedleError::SessionRowMissing {
                                session_id: session.session_id,
                            },
                        },
                    )
                } else {
                    let cookie = cookie_for(&session);
                    (CartUpdateState::Done, CartUpdateAction::Redirect { undo, cookie })
                }
            },
            CartUpdateEvent::CartWriteFailed => (
                CartUpdateState::Failed,
                CartUpdateAction::Fail {
                    error: BeedleError::StorageUnavailable {
                        operation: StoreOperation::UpdateSessionCart,
                    },
                },
            ),
            _ => (CartUpdateState::AwaitingWrite { session, undo }, CartUpdateAction::Ignore),
        },
        CartUpdateState::Done => (CartUpdateState::Done, CartUpdateAction::Ignore),
        CartUpdateState::Failed => (CartUpdateState::Failed, CartUpdateAction::Ignore),
    }
}

/// A change for a product that does not exist fails before the cart is
/// touched: the flow ends at once, and no step of it asks for a write.
pub proof fn law_unknown_product_leaves_cart_untouched(
    session: SessionInfoView,
    product_id: i32,
    delta: i32,
    later: CartUpdateEventView,
)
    ensures
        ({
            let first = cart_update_next(
                CartUpdateStateView::Start,
                CartUpdateEventView::Submit { session, product_id, delta },
            );
            let second = cart_update_next(
                first.0,
                CartUpdateEventView::ProductLoaded { product: None },
            );
            let third = cart_update_next(second.0, later);
            &&& first.1 == CartUpdateActionView::LoadProduct { product_id }
            &&& second.0 == CartUpdateStateView::Failed
            &&& second.1 == CartUpdateActionView::Fail {
                error: BeedleError::ProductNotFound { product_id },
            }
            &&& third.0 == CartUpdateStateView::Failed
            &&& third.1 == CartUpdateActionView::Ignore
        }),
{
}

/// The flow asks for a write only with the cart of its session reconciled
/// under the ceiling of the product as it was just loaded.
pub proof fn law_write_carries_reconciled_cart(
    state: CartUpdateStateView,
    event: CartUpdateEventView,
)
    ensures
        cart_update_next(state, event).1 matches CartUpdateActionView::WriteCart {
            session_id,
            cart,
        } ==> {
            &&& state matches CartUpdateStateView::AwaitingProduct { session, product_id, delta }
            &&& event matches CartUpdateEventView::ProductLoaded { product: Some(p) }
            &&& session_id == session.session_id
            &&& cart == reconciled(session.cart, product_id, delta, p.spec_max_allowed())
            &&& delta > 0 ==> p.spec_max_allowed() >= 1
        },
{
}

/// Whether the cart that the flow holds in `state`, if it holds one, is
/// well-formed.
pub open spec fn holds_wf_cart(state: CartUpdateStateView) -> bool {
    match state {
        CartUpdateStateView::AwaitingProduct { session, .. } => cart_wf(session.cart),
        CartUpdateStateView::AwaitingWrite { session, .. } => cart_wf(session.cart),
        _ => true,
    }
}

/// A flow that is given a well-formed cart never holds another and never
/// writes another: in every state every line has a quantity of at least one,
/// and no product has two lines.
pub proof fn law_flow_keeps_cart_wf(state: CartUpdateStateView, event: CartUpdateEventView)
    requires
        holds_wf_cart(state),
        event matches CartUpdateEventView::Submit { session, .. } ==> cart_wf(session.cart),
    ensures
        holds_wf_cart(cart_update_next(state, event).0),
        cart_update_next(state, event).1 matches CartUpdateActionView::WriteCart { cart, .. }
            ==> cart_wf(cart),
{
    if let CartUpdateStateView::AwaitingProduct { session, product_id, delta } = state {
        if let CartUpdateEventView::ProductLoaded { product: Some(p) } = event {
            if !(delta > 0 && p.spec_max_allowed() < 1) {
                law_reconciled_cart_is_wf(session.cart, product_id, delta, p.spec_max_allowed());
            }
        }
    }
}

} // verus!
