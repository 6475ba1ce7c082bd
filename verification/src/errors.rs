//! The failures that the storefront core reports, each with the values that
//! tell a reader of the log what was being attempted.

use vstd::prelude::*;
use vstd::string::*;
use crate::text::{decimal, push_decimal, push_signed_decimal, signed_decimal};
use crate::token::{text_of_uuid, uuid_display};

verus! {

/// The storage call during which storage failed.
#[derive(Clone, Copy, Debug, PartialEq, Eq, Structural)]
pub enum StoreOperation {
    FindSession,
    CreateSession,
    UpdateSessionCart,
    LoadProduct,
    UpdateInventory,
    LoadCategories,
}

impl StoreOperation {
    /// The operation in words.
    pub open spec fn spec_name(self) -> Seq<char> {
        match self {
            StoreOperation::FindSession => "find session"@,
            StoreOperation::CreateSession => "create session"@,
            StoreOperation::UpdateSessionCart => "update session cart"@,
            StoreOperation::LoadProduct => "load product"@,
            StoreOperation::UpdateInventory => "update inventory"@,
            StoreOperation::LoadCategories => "load categories"@,
        }
    }

    /// The operation in words.
    pub fn name(&self) -> (name: &'static str)
        ensures
            name@ == self.spec_name(),
    {
        match self {
            StoreOperation::FindSession => "find session",
            StoreOperation::CreateSession => "create session",
            StoreOperation::UpdateSessionCart => "update session cart",
            StoreOperation::LoadProduct => "load product",
            StoreOperation::UpdateInventory => "update inventory",
            StoreOperation::LoadCategories => "load categories",
        }
    }
}

/// A failure of the storefront core.
#[derive(Clone, Copy, Debug, PartialEq, Eq, Structural)]
pub enum BeedleError {
    /// Storage could not be reached or failed the call. Fatal for the request;
    /// nothing is retried.
    StorageUnavailable { operation: StoreOperation },
    /// No product has this identifier. The visitor can correct the request.
    ProductNotFound { product_id: i32 },
    /// A checkout was asked for an empty cart. The visitor can correct it.
    EmptyCart,
    /// The stock of a product does not cover the quantity asked for.
    InsufficientInventory { product_id: i32, requested: u32, in_stock: i32 },
    /// A cart was written back and no session row took it: the row is gone.
    SessionRowMissing { session_id: u128 },
    /// The payment provider did not authorize the payment.
    PaymentFailed,
    /// The total of an order is beyond what an amount of money can hold. The
    /// visitor can correct it by ordering less.
    OrderTooLarge,
}

impl BeedleError {
    /// The HTTP status that an error answers a request with: what the visitor
    /// can correct is a 400, a refusal by the payment provider a 502, a fault
    /// of the server's own a 500.
    pub open spec fn spec_status_code(self) -> u16 {
        match self {
            BeedleError::StorageUnavailable { .. } => 500,
            BeedleError::ProductNotFound { .. } => 400,
            BeedleError::EmptyCart => 400,
            BeedleError::InsufficientInventory { .. } => 400,
            BeedleError::SessionRowMissing { .. } => 500,
            BeedleError::PaymentFailed => 502,
            BeedleError::OrderTooLarge => 400,
        }
    }

    /// Whether the visitor, rather than the operator, can put the failure
    /// right.
    pub open spec fn spec_is_user_correctable(self) -> bool {
        self is ProductNotFound || self is EmptyCart || self is InsufficientInventory
            || self is OrderTooLarge
    }

    /// The error in words, with the values that it carries.
    pub open spec fn spec_message(self) -> Seq<char> {
        match self {
            BeedleError::StorageUnavailable {
                operation,
            } => "Database error: storage unavailable ("@ + operation.spec_name() + ")"@,
            BeedleError::ProductNotFound {
                product_id,
            } => "Inventory error: Product not found (id "@ + signed_decimal(product_id as int)
                + ")"@,
            BeedleError::EmptyCart => "Cart is empty"@,
            BeedleError::InsufficientInventory {
                product_id,
                requested,
                in_stock,
            } => "Inventory error: product id "@ + signed_decimal(product_id as int) + ": wanted "@
                + decimal(requested as nat) + ", in stock "@ + signed_decimal(in_stock as int),
            BeedleError::SessionRowMissing {
                session_id,
            } => "Database error: missing session row for session_id: "@ + text_of_uuid(session_id),
            BeedleError::PaymentFailed => "Payment failed"@,
            BeedleError::OrderTooLarge => "Order total is out of range"@,
        }
    }

    /// The error in words, for the log and for the body of the answer: see
    /// [`BeedleError::spec_message`].
    pub fn message(&self) -> (text: String)
        ensures
            text@ == self.spec_message(),
    {
        match self {
            BeedleError::StorageUnavailable { operation } => {
                let mut text = String::from_str("Database error: storage unavailable (");
                text.append(operation.name());
                text.append(")");
                text
            },
            BeedleError::ProductNotFound { product_id } => {
                let mut text = String::from_str("Inventory error: Product not found (id ");
                push_signed_decimal(&mut text, *product_id as i64);
                text.append(")");
                text
            },
            BeedleError::EmptyCart => String::from_str("Cart is empty"),
            BeedleError::InsufficientInventory { product_id, requested, in_stock } => {
                let mut text = String::from_str("Inventory error: product id ");
                push_signed_decimal(&mut text, *product_id as i64);
                text.append(": wanted ");
                push_decimal(&mut text, *requested as u64);
                text.append(", in stock ");
                push_signed_decimal(&mut text, *in_stock as i64);
                text
            },
            BeedleError::SessionRowMissing { session_id } => {
                let mut text = String::from_str(
                    "Database error: missing session row for session_id: ",
                );
                let id = uuid_display(*session_id);
                text.append(id.as_str());
                text
            },
            BeedleError::PaymentFailed => String::from_str("Payment failed"),
            BeedleError::OrderTooLarge => String::from_str("Order total is out of range"),
        }
    }

    /// The HTTP status that this error answers a request with.
    pub fn status_code(&self) -> (code: u16)
        ensures
            code == self.spec_status_code(),
            self.spec_is_user_correctable() <==> code == 400,
    {
        match self {
            BeedleError::StorageUnavailable { .. } => 500,
            BeedleError::ProductNotFound { .. } => 400,
            BeedleError::EmptyCart => 400,
            BeedleError::InsufficientInventory { .. } => 400,
            BeedleError::SessionRowMissing { .. } => 500,
            BeedleError::PaymentFailed => 502,
            BeedleError::OrderTooLarge => 400,
        }
    }
}

} // verus!
