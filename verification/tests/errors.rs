use beedle::errors::{BeedleError, StoreOperation};

#[test]
fn status_codes_by_kind_of_failure() {
    let storage = BeedleError::StorageUnavailable { operation: StoreOperation::FindSession };
    assert_eq!(storage.status_code(), 500);
    assert_eq!(BeedleError::ProductNotFound { product_id: 3 }.status_code(), 400);
    assert_eq!(BeedleError::EmptyCart.status_code(), 400);
    let short = BeedleError::InsufficientInventory { product_id: 3, requested: 2, in_stock: 1 };
    assert_eq!(short.status_code(), 400);
    assert_eq!(BeedleError::SessionRowMissing { session_id: 9 }.status_code(), 500);
    assert_eq!(BeedleError::PaymentFailed.status_code(), 502);
    assert_eq!(BeedleError::OrderTooLarge.status_code(), 400);
}

#[test]
fn insufficient_inventory_is_told_apart_from_storage_failure() {
    let short = BeedleError::InsufficientInventory { product_id: 3, requested: 2, in_stock: 1 };
    let storage = BeedleError::StorageUnavailable { operation: StoreOperation::UpdateInventory };
    assert_ne!(short, storage);
    assert_ne!(short.status_code(), storage.status_code());
}
