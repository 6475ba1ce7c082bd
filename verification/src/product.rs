//! What the core reads of a product: its identity, its price and its stock.

use vstd::prelude::*;
use crate::cart::FIXED_PER_ORDER_CAP;
use crate::errors::BeedleError;

verus! {

/// A product of the catalog, as far as carts and checkouts are concerned.
#[derive(Clone, Copy, Debug, PartialEq, Eq, Structural)]
pub struct Product {
    pub id: i32,
    /// The price of one unit, in cents.
    pub price: i64,
    /// The units in stock, never negative.
    pub inventory: i32,
}

/// The part of a product page's path that names the product.
#[derive(Clone, Copy, Debug, PartialEq, Eq, Structural)]
pub struct ProductPath {
    pub product_id: i32,
}

impl Product {
    /// A product is well-formed when its stock is not negative.
    pub open spec fn wf(self) -> bool {
        self.inventory >= 0
    }

    /// The most units of this product that a cart may grow to: the stock, but
    /// never more than [`FIXED_PER_ORDER_CAP`].
    pub open spec fn spec_max_allowed(self) -> i32 {
        if self.inventory < FIXED_PER_ORDER_CAP {
            self.inventory
        } else {
            FIXED_PER_ORDER_CAP
        }
    }

    /// The most units of this product that a cart may grow to. It is taken
    /// from the product as storage holds it now, never from an earlier
    /// request.
    pub fn max_allowed(&self) -> (max: i32)
        ensures
            max == self.spec_max_allowed(),
            max <= self.inventory,
            max <= FIXED_PER_ORDER_CAP,
    {
        if self.inventory < FIXED_PER_ORDER_CAP {
            self.inventory
        } else {
            FIXED_PER_ORDER_CAP
        }
    }
}

/// Judges a change or removal of the product `product_id` by the number of
/// rows that storage touched: one that touched none found no such product.
pub fn confirm_product_write(product_id: i32, rows_affected: usize) -> (outcome: Result<
    (),
    BeedleError,
>)
    ensures
        outcome == if rows_affected == 0 {
            Err::<(), BeedleError>(BeedleError::ProductNotFound { product_id })
        } else {
            Ok::<(), BeedleError>(())
        },
{
    if rows_affected == 0 {
        Err(BeedleError::ProductNotFound { product_id })
    } else {
        Ok(())
    }
}

/// Whether some product of `products` has the identifier `product_id`.
pub open spec fn has_id(products: Seq<Product>, product_id: i32) -> bool {
    exists|i: int| 0 <= i < products.len() && (#[trigger] products[i]).id == product_id
}

/// Whether `i` is the index of the first product of `products` with the
/// identifier `product_id`.
pub open spec fn is_first_with_id(products: Seq<Product>, product_id: i32, i: int) -> bool {
    &&& 0 <= i < products.len()
    &&& products[i].id == product_id
    &&& forall|j: int| 0 <= j < i ==> (#[trigger] products[j]).id != product_id
}

/// The index of the first product with the identifier `product_id`.
/// Meaningful where `has_id(products, product_id)`.
pub open spec fn first_with_id(products: Seq<Product>, product_id: i32) -> int {
    choose|i: int| is_first_with_id(products, product_id, i)
}

/// The first product with an identifier is the only index that
/// `is_first_with_id` holds of.
pub proof fn lemma_first_with_id_unique(products: Seq<Product>, product_id: i32, i: int)
    requires
        is_first_with_id(products, product_id, i),
    ensures
        has_id(products, product_id),
        first_with_id(products, product_id) == i,
{
}

/// A product with the identifier at `k` means that there is a first one, at
/// or before `k`.
pub proof fn lemma_has_first(products: Seq<Product>, product_id: i32, k: int)
    requires
        0 <= k < products.len(),
        products[k].id == product_id,
    ensures
        has_id(products, product_id),
        is_first_with_id(products, product_id, first_with_id(products, product_id)),
        first_with_id(products, product_id) <= k,
    decreases k,
{
    if forall|j: int| 0 <= j < k ==> (#[trigger] products[j]).id != product_id {
        assert(is_first_with_id(products, product_id, k));
    } else {
        let j = choose|j: int| 0 <= j < k && (#[trigger] products[j]).id == product_id;
        lemma_has_first(products, product_id, j);
    }
}

/// A product that is among `products` has a first place there.
pub proof fn lemma_first_with_id(products: Seq<Product>, product_id: i32)
    requires
        has_id(products, product_id),
    ensures
        is_first_with_id(products, product_id, first_with_id(products, product_id)),
{
    let k = choose|k: int| 0 <= k < products.len() && (#[trigger] products[k]).id == product_id;
    lemma_has_first(products, product_id, k);
}

/// The index of the first product with the identifier `product_id`, if there
/// is one.
pub fn find_product(products: &Vec<Product>, product_id: i32) -> (found: Option<usize>)
    ensures
        found is Some <==> has_id(products@, product_id),
        found matches Some(i) ==> is_first_with_id(products@, product_id, i as int) && i as int
            == first_with_id(products@, product_id),
{
    let mut i: usize = 0;
    while i < products.len()
        invariant
            i <= products.len(),
            forall|j: int| 0 <= j < i ==> (#[trigger] products@[j]).id != product_id,
        decreases products.len() - i,
    {
        if products[i].id == product_id {
            proof {
                lemma_first_with_id_unique(products@, product_id, i as int);
            }
            return Some(i);
        }
        i += 1;
    }
    None
}

} // verus!
