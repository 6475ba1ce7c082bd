//! The stock of the catalog and the all-or-nothing decrement of a checkout.
//!
//! The decrement runs on the product rows that one storage transaction holds.
//! Either every line of the cart is covered by the stock and every decrement
//! is made, or nothing is changed at all. That two checkouts do not run into
//! each other is the transaction's work; what one of them does to the rows it
//! holds is decided here.

use vstd::prelude::*;
use crate::cart::CartItem;
use crate::errors::BeedleError;
use crate::product::{
    find_product,
    first_with_id,
    has_id,
    lemma_first_with_id_unique,
    lemma_first_with_id,
    Product,
};

verus! {

/// Stock is well-formed when no product has a negative count.
pub open spec fn stock_wf(stock: Seq<Product>) -> bool {
    forall|i: int| 0 <= i < stock.len() ==> (#[trigger] stock[i]).wf()
}

/// The stock after one line of a cart has been taken from it, or the reason
/// why it cannot be taken: the product is not there, or it has fewer units
/// than the line asks for.
pub open spec fn line_taken(stock: Seq<Product>, line: CartItem) -> Result<
    Seq<Product>,
    BeedleError,
> {
    if !has_id(stock, line.product_id) {
        Err(BeedleError::ProductNotFound { product_id: line.product_id })
    } else {
        let i = first_with_id(stock, line.product_id);
        let row = stock[i];
        if row.inventory >= line.quantity {
            Ok(
                stock.update(
                    i,
                    Product { inventory: (row.inventory - line.quantity) as i32, ..row },
                ),
            )
        } else {
            Err(
                BeedleError::InsufficientInventory {
                    product_id: line.product_id,
                    requested: line.quantity,
                    in_stock: row.inventory,
                },
            )
        }
    }
}

/// The stock after the lines of `cart` have been taken from it one after the
/// other, or the reason why the first line that cannot be taken cannot.
pub open spec fn checked_out(stock: Seq<Product>, cart: Seq<CartItem>) -> Result<
    Seq<Product>,
    BeedleError,
>
    decreases cart.len(),
{
    if cart.len() == 0 {
        Ok(stock)
    } else {
        match checked_out(stock, cart.drop_last()) {
            Ok(rest) => line_taken(rest, cart.last()),
            Err(error) => Err(error),
        }
    }
}

/// A failure among the first `k` lines is the failure of the whole cart.
pub proof fn lemma_failure_stands(stock: Seq<Product>, cart: Seq<CartItem>, k: int)
    requires
        0 <= k <= cart.len(),
        checked_out(stock, cart.take(k)) is Err,
    ensures
        checked_out(stock, cart) == checked_out(stock, cart.take(k)),
    decreases cart.len() - k,
{
    if k < cart.len() {
        assert(cart.take(k + 1).drop_last() == cart.take(k));
        lemma_failure_stands(stock, cart, k + 1);
    } else {
        assert(cart.take(k) == cart);
    }
}

/// Taking a line changes no identifier and the number of rows, and leaves no
/// count negative that was not so before.
pub proof fn lemma_line_taken_keeps_rows(stock: Seq<Product>, line: CartItem)
    requires
        line_taken(stock, line) is Ok,
    ensures
        line_taken(stock, line)->Ok_0.len() == stock.len(),
        forall|i: int|
            0 <= i < stock.len() ==> (#[trigger] line_taken(stock, line)->Ok_0[i]).id
                == stock[i].id,
        forall|i: int|
            0 <= i < stock.len() ==> (#[trigger] line_taken(stock, line)->Ok_0[i]).price
                == stock[i].price,
        stock_wf(stock) ==> stock_wf(line_taken(stock, line)->Ok_0),
{
    lemma_first_with_id(stock, line.product_id);
}

/// A checkout that goes through changes no identifier, no price and not the
/// number of rows, and leaves well-formed stock well-formed: no count falls
/// below zero.
pub proof fn law_checkout_keeps_stock_wf(stock: Seq<Product>, cart: Seq<CartItem>)
    requires
        checked_out(stock, cart) is Ok,
    ensures
        checked_out(stock, cart)->Ok_0.len() == stock.len(),
        forall|i: int|
            0 <= i < stock.len() ==> (#[trigger] checked_out(stock, cart)->Ok_0[i]).id
                == stock[i].id,
        forall|i: int|
            0 <= i < stock.len() ==> (#[trigger] checked_out(stock, cart)->Ok_0[i]).price
                == stock[i].price,
        stock_wf(stock) ==> stock_wf(checked_out(stock, cart)->Ok_0),
    decreases cart.len(),
{
    if cart.len() > 0 {
        let rest = checked_out(stock, cart.drop_last())->Ok_0;
        law_checkout_keeps_stock_wf(stock, cart.drop_last());
        lemma_line_taken_keeps_rows(rest, cart.last());
    }
}

/// Whether the stock covers a line: the product is there and has at least as
/// many units as the line asks for.
pub open spec fn covers(stock: Seq<Product>, line: CartItem) -> bool {
    has_id(stock, line.product_id) && stock[first_with_id(stock, line.product_id)].inventory
        >= line.quantity
}

/// Whether no two lines of the cart are for the same product.
pub open spec fn one_line_per_product(cart: Seq<CartItem>) -> bool {
    forall|i: int, j: int|
        0 <= i < j < cart.len() ==> (#[trigger] cart[i]).product_id != (
        #[trigger] cart[j]).product_id
}

/// A checkout that goes through leaves every row alone whose product no line
/// of the cart names.
pub proof fn lemma_checkout_touches_named_rows_only(
    stock: Seq<Product>,
    cart: Seq<CartItem>,
    i: int,
)
    requires
        checked_out(stock, cart) is Ok,
        0 <= i < stock.len(),
        forall|k: int| 0 <= k < cart.len() ==> (#[trigger] cart[k]).product_id != stock[i].id,
    ensures
        checked_out(stock, cart)->Ok_0.len() == stock.len(),
        checked_out(stock, cart)->Ok_0[i] == stock[i],
    decreases cart.len(),
{
    law_checkout_keeps_stock_wf(stock, cart);
    if cart.len() > 0 {
        let init = cart.drop_last();
        let rest = checked_out(stock, init)->Ok_0;
        lemma_checkout_touches_named_rows_only(stock, init, i);
        law_checkout_keeps_stock_wf(stock, init);
        let line = cart.last();
        lemma_first_with_id(rest, line.product_id);
    }
}

/// The rows of two stocks that agree on every identifier give the same answer
/// to the question where a product is first found.
pub proof fn lemma_same_ids_same_first(a: Seq<Product>, b: Seq<Product>, product_id: i32)
    requires
        a.len() == b.len(),
        forall|i: int| 0 <= i < a.len() ==> (#[trigger] a[i]).id == b[i].id,
    ensures
        has_id(a, product_id) == has_id(b, product_id),
        has_id(a, product_id) ==> first_with_id(a, product_id) == first_with_id(b, product_id),
{
    if has_id(a, product_id) {
        lemma_first_with_id(a, product_id);
        let f = first_with_id(a, product_id);
        assert forall|j: int| 0 <= j < f implies (#[trigger] b[j]).id != product_id by {
            assert(a[j].id != product_id);
        }
        lemma_first_with_id_unique(b, product_id, f);
    } else if has_id(b, product_id) {
        let k = choose|k: int| 0 <= k < b.len() && (#[trigger] b[k]).id == product_id;
        assert(a[k].id == product_id);
    }
}

/// All or nothing. For a cart with one line per product, the checkout goes
/// through exactly when the stock, as it was before, covers every line; then
/// every line's product has lost exactly the line's quantity. Where a single
/// line is not covered, the checkout fails as a whole, whatever the stock
/// holds for the other lines.
pub proof fn law_checkout_is_all_or_nothing(stock: Seq<Product>, cart: Seq<CartItem>)
    requires
        one_line_per_product(cart),
    ensures
        checked_out(stock, cart) is Ok <==> forall|k: int|
            0 <= k < cart.len() ==> covers(stock, #[trigger] cart[k]),
        checked_out(stock, cart) is Ok ==> forall|k: int|
            0 <= k < cart.len() ==> (#[trigger] checked_out(stock, cart)->Ok_0[first_with_id(
                stock,
                cart[k].product_id,
            )]).inventory == stock[first_with_id(stock, cart[k].product_id)].inventory
                - cart[k].quantity,
    decreases cart.len(),
{
    if cart.len() > 0 {
        let init = cart.drop_last();
        let line = cart.last();
        law_checkout_is_all_or_nothing(stock, init);
        if checked_out(stock, init) is Ok {
            let rest = checked_out(stock, init)->Ok_0;
            law_checkout_keeps_stock_wf(stock, init);
            lemma_same_ids_same_first(stock, rest, line.product_id);
            if has_id(stock, line.product_id) {
                lemma_first_with_id(stock, line.product_id);
                let f = first_with_id(stock, line.product_id);
                lemma_checkout_touches_named_rows_only(stock, init, f);
            }
            if covers(stock, line) {
                assert forall|k: int| 0 <= k < cart.len() implies covers(
                    stock,
                    #[trigger] cart[k],
                ) by {
                    if k < init.len() {
                        assert(init[k] == cart[k]);
                    }
                }
                let out = checked_out(stock, cart)->Ok_0;
                assert forall|k: int| 0 <= k < cart.len() implies (#[trigger] out[first_with_id(
                    stock,
                    cart[k].product_id,
                )]).inventory == stock[first_with_id(stock, cart[k].product_id)].inventory
                    - cart[k].quantity by {
                    if k < init.len() {
                        assert(covers(stock, init[k]));
                        lemma_first_with_id(stock, cart[k].product_id);
                    }
                }
            }
        }
    }
}

/// The last units are sold once. Where two checkouts each ask for units of
/// one product that the stock covers singly but not together, the one that
/// runs first goes through and the one that runs after it is refused for
/// want of stock; the count ends at what the first left, never below zero.
pub proof fn law_contested_stock_sells_once(stock: Seq<Product>, first: CartItem, second: CartItem)
    requires
        first.product_id == second.product_id,
        covers(stock, first),
        covers(stock, second),
        first.quantity + second.quantity > stock[first_with_id(
            stock,
            first.product_id,
        )].inventory,
    ensures
        ({
            let at = first_with_id(stock, first.product_id);
            let left = stock[at].inventory - first.quantity;
            &&& checked_out(stock, seq![first]) matches Ok(after)
            &&& after[at].inventory == left
            &&& left >= 0
            &&& checked_out(after, seq![second]) == Err::<Seq<Product>, BeedleError>(
                BeedleError::InsufficientInventory {
                    product_id: second.product_id,
                    requested: second.quantity,
                    in_stock: left as i32,
                },
            )
        }),
{
    lemma_first_with_id(stock, first.product_id);
    assert(checked_out(stock, seq![first].drop_last()) == Ok::<Seq<Product>, BeedleError>(stock));
    let after = checked_out(stock, seq![first])->Ok_0;
    lemma_line_taken_keeps_rows(stock, first);
    lemma_same_ids_same_first(stock, after, second.product_id);
    assert(checked_out(after, seq![second].drop_last()) == Ok::<Seq<Product>, BeedleError>(after));
}

/// Takes the lines of `cart` from `stock`, all or none: see [`checked_out`].
///
/// Where every line can be taken in turn, `stock` is the stock after all of
/// them. Where one cannot, the error says which and why, and `stock` is as it
/// was: the lines before it have left no trace.
pub fn update_inventory(stock: &mut Vec<Product>, cart: &Vec<CartItem>) -> (outcome: Result<
    (),
    BeedleError,
>)
    ensures
        match outcome {
            Ok(()) => checked_out(old(stock)@, cart@) == Ok::<Seq<Product>, BeedleError>(
                final(stock)@,
            ),
            Err(error) => checked_out(old(stock)@, cart@) == Err::<Seq<Product>, BeedleError>(
                error,
            ) && final(stock)@ == old(stock)@,
        },
        stock_wf(old(stock)@) ==> stock_wf(final(stock)@),
{
    let mut work: Vec<Product> = stock.clone();
    let mut i: usize = 0;
    while i < cart.len()
        invariant
            i <= cart.len(),
            checked_out(stock@, cart@.take(i as int)) == Ok::<Seq<Product>, BeedleError>(work@),
        decreases cart.len() - i,
    {
        let line = cart[i];
        proof {
            assert(cart@.take(i + 1).drop_last() == cart@.take(i as int));
        }
        match find_product(&work, line.product_id) {
            None => {
                proof {
                    lemma_failure_stands(stock@, cart@, i + 1);
                }
                return Err(BeedleError::ProductNotFound { product_id: line.product_id });
            },
            Some(at) => {
                let row = work[at];
                if row.inventory >= 0 && row.inventory as i64 >= line.quantity as i64 {
                    let left: i64 = row.inventory as i64 - line.quantity as i64;
                    work.set(at, Product { id: row.id, price: row.price, inventory: left as i32 });
                } else {
                    proof {
                        lemma_failure_stands(stock@, cart@, i + 1);
                    }
                    return Err(
                        BeedleError::InsufficientInventory {
                            product_id: line.product_id,
                            requested: line.quantity,
                            in_stock: row.inventory,
                        },
                    );
                }
            },
        }
        i += 1;
    }
    proof {
        assert(cart@.take(i as int) == cart@);
        law_checkout_keeps_stock_wf(stock@, cart@);
    }
    *stock = work;
    Ok(())
}

} // verus!
