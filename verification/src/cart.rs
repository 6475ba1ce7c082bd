//! The shopping cart and the rules by which a quantity change is applied.
//!
//! A cart is stored as a sequence of lines, but it stands for a mapping from
//! product to quantity: a well-formed cart has at most one line per product
//! and no line with a quantity below one.

use vstd::prelude::*;

verus! {

/// The most units of one product that a single order may hold, whatever the
/// stock.
pub const FIXED_PER_ORDER_CAP: i32 = 99;

/// One line of a cart.
#[derive(Clone, Copy, Debug, PartialEq, Eq, Structural)]
pub struct CartItem {
    pub product_id: i32,
    pub quantity: u32,
}

/// `x` brought into `lo ..= hi`. Meaningful where `lo <= hi`.
pub open spec fn clamp(x: int, lo: int, hi: int) -> int {
    if x < lo {
        lo
    } else if x > hi {
        hi
    } else {
        x
    }
}

/// Whether some line of `cart` is for `product_id`.
pub open spec fn has_product(cart: Seq<CartItem>, product_id: i32) -> bool {
    exists|i: int| 0 <= i < cart.len() && (#[trigger] cart[i]).product_id == product_id
}

/// Whether line `i` is the first line of `cart` for `product_id`.
pub open spec fn is_first_line(cart: Seq<CartItem>, product_id: i32, i: int) -> bool {
    &&& 0 <= i < cart.len()
    &&& cart[i].product_id == product_id
    &&& forall|j: int| 0 <= j < i ==> (#[trigger] cart[j]).product_id != product_id
}

/// The index of the first line for `product_id`. Meaningful where
/// `has_product(cart, product_id)`.
pub open spec fn first_line(cart: Seq<CartItem>, product_id: i32) -> int {
    choose|i: int| is_first_line(cart, product_id, i)
}

/// The quantity that `cart` holds of `product_id`: that of its first line for
/// it, or zero where there is none.
pub open spec fn quantity_of(cart: Seq<CartItem>, product_id: i32) -> int {
    if has_product(cart, product_id) {
        cart[first_line(cart, product_id)].quantity as int
    } else {
        0
    }
}

/// The predicate "is a line for another product than `product_id`".
pub open spec fn is_other_product(product_id: i32) -> spec_fn(CartItem) -> bool {
    |item: CartItem| item.product_id != product_id
}

/// `cart` with every line for `product_id` taken out, the rest in order.
pub open spec fn without(cart: Seq<CartItem>, product_id: i32) -> Seq<CartItem> {
    cart.filter(is_other_product(product_id))
}

/// A cart is well-formed when every line has a quantity of at least one and no
/// two lines are for the same product.
pub open spec fn cart_wf(cart: Seq<CartItem>) -> bool {
    &&& forall|i: int| 0 <= i < cart.len() ==> (#[trigger] cart[i]).quantity >= 1
    &&& forall|i: int, j: int|
        0 <= i < j < cart.len() ==> (#[trigger] cart[i]).product_id != (
        #[trigger] cart[j]).product_id
}

/// The cart that results from applying `delta` to the quantity of
/// `product_id`, with `max_allowed` as the ceiling for growth.
///
/// * `delta == 0` removes the product.
/// * `delta > 0` raises the quantity, or inserts the product, the new
///   quantity brought into `1 ..= max_allowed`.
/// * `delta < 0` lowers the quantity and removes the product once it falls
///   below one; the ceiling plays no part. An absent product stays absent.
pub open spec fn reconciled(
    cart: Seq<CartItem>,
    product_id: i32,
    delta: i32,
    max_allowed: i32,
) -> Seq<CartItem>
    recommends
        delta > 0 ==> max_allowed >= 1,
{
    if delta == 0 {
        without(cart, product_id)
    } else if has_product(cart, product_id) {
        let i = first_line(cart, product_id);
        let wanted = cart[i].quantity + delta;
        if delta > 0 {
            cart.update(
                i,
                CartItem { product_id, quantity: clamp(wanted, 1, max_allowed as int) as u32 },
            )
        } else if wanted < 1 {
            cart.remove(i)
        } else {
            cart.update(i, CartItem { product_id, quantity: wanted as u32 })
        }
    } else if delta > 0 {
        cart.push(
            CartItem { product_id, quantity: clamp(delta as int, 1, max_allowed as int) as u32 },
        )
    } else {
        cart
    }
}

/// A line for `product_id` at `k` means that the product has a first line, at
/// or before `k`.
pub proof fn lemma_first_line_exists(cart: Seq<CartItem>, product_id: i32, k: int)
    requires
        0 <= k < cart.len(),
        cart[k].product_id == product_id,
    ensures
        has_product(cart, product_id),
        is_first_line(cart, product_id, first_line(cart, product_id)),
        first_line(cart, product_id) <= k,
    decreases k,
{
    if forall|j: int| 0 <= j < k ==> (#[trigger] cart[j]).product_id != product_id {
        assert(is_first_line(cart, product_id, k));
    } else {
        let j = choose|j: int| 0 <= j < k && (#[trigger] cart[j]).product_id == product_id;
        lemma_first_line_exists(cart, product_id, j);
    }
}

/// A product that the cart holds has a first line.
pub proof fn lemma_first_line(cart: Seq<CartItem>, product_id: i32)
    requires
        has_product(cart, product_id),
    ensures
        is_first_line(cart, product_id, first_line(cart, product_id)),
{
    let k = choose|k: int| 0 <= k < cart.len() && (#[trigger] cart[k]).product_id == product_id;
    lemma_first_line_exists(cart, product_id, k);
}

/// The first line of a product is the only index that `is_first_line` holds of.
pub proof fn lemma_first_line_unique(cart: Seq<CartItem>, product_id: i32, i: int)
    requires
        is_first_line(cart, product_id, i),
    ensures
        has_product(cart, product_id),
        first_line(cart, product_id) == i,
{
}

/// A line survives the removal of a product exactly when it is for another
/// one, so no line of the result is for the removed product, and every line of
/// the result was a line before.
pub proof fn lemma_without(cart: Seq<CartItem>, product_id: i32)
    ensures
        !has_product(without(cart, product_id), product_id),
        without(cart, product_id).len() <= cart.len(),
        forall|i: int|
            0 <= i < without(cart, product_id).len() ==> cart.contains(
                #[trigger] without(cart, product_id)[i],
            ),
        !has_product(cart, product_id) ==> without(cart, product_id) == cart,
        cart_wf(cart) ==> cart_wf(without(cart, product_id)),
    decreases cart.len(),
{
    reveal(Seq::filter);
    if cart.len() > 0 {
        let init = cart.drop_last();
        let kept = without(init, product_id);
        let out = without(cart, product_id);
        lemma_without(init, product_id);
        if has_product(out, product_id) {
            // The witness is no line of `kept`, and it is not the last line.
            let i = choose|i: int|
                0 <= i < out.len() && (#[trigger] out[i]).product_id == product_id;
            assert(i < kept.len() ==> out[i] == kept[i]);
        }
        if cart_wf(cart) {
            assert forall|i: int, j: int| 0 <= i < j < out.len() implies (
            #[trigger] out[i]).product_id != (#[trigger] out[j]).product_id by {
                // Both are lines of `kept`, or the second is the last line of
                // `cart` and the first some line before it.
                assert(j < kept.len() ==> out[i] == kept[i] && out[j] == kept[j]);
                assert(init.contains(kept[i]));
            }
        }
    }
}

/// Reconciliation keeps a well-formed cart well-formed: afterwards, as before,
/// every line holds a quantity of at least one and no product has two lines.
pub proof fn law_reconciled_cart_is_wf(
    cart: Seq<CartItem>,
    product_id: i32,
    delta: i32,
    max_allowed: i32,
)
    requires
        cart_wf(cart),
        delta > 0 ==> max_allowed >= 1,
    ensures
        cart_wf(reconciled(cart, product_id, delta, max_allowed)),
{
    if delta == 0 {
        lemma_without(cart, product_id);
    } else if has_product(cart, product_id) {
        lemma_first_line(cart, product_id);
    }
}

/// The cart after a run of removal requests, each a call with a delta of
/// zero: `calls[k].0` is the product of the k-th call and `calls[k].1` the
/// ceiling that it was made with.
pub open spec fn after_removals(cart: Seq<CartItem>, calls: Seq<(i32, i32)>) -> Seq<CartItem>
    decreases calls.len(),
{
    if calls.len() == 0 {
        cart
    } else {
        reconciled(after_removals(cart, calls.drop_last()), calls.last().0, 0, calls.last().1)
    }
}

/// A delta of zero removes the product: whatever the cart and the ceiling, the
/// product is absent afterwards, and no other product has been added.
pub proof fn law_zero_delta_removes(cart: Seq<CartItem>, product_id: i32, max_allowed: i32)
    ensures
        !has_product(reconciled(cart, product_id, 0, max_allowed), product_id),
        forall|other: i32|
            has_product(reconciled(cart, product_id, 0, max_allowed), other) ==> has_product(
                cart,
                other,
            ),
{
    lemma_without(cart, product_id);
}

/// After any run of removal requests, every product that one of them named is
/// absent from the cart.
pub proof fn law_removals_leave_products_absent(
    cart: Seq<CartItem>,
    calls: Seq<(i32, i32)>,
    k: int,
)
    requires
        0 <= k < calls.len(),
    ensures
        !has_product(after_removals(cart, calls), calls[k].0),
    decreases calls.len(),
{
    let before = after_removals(cart, calls.drop_last());
    law_zero_delta_removes(before, calls.last().0, calls.last().1);
    if k < calls.len() - 1 {
        law_removals_leave_products_absent(cart, calls.drop_last(), k);
    }
}

/// Growth never passes the ceiling: after a positive delta the cart holds at
/// least one and at most `max_allowed` of the product, and in a well-formed
/// cart no line for the product holds more.
pub proof fn law_growth_respects_ceiling(
    cart: Seq<CartItem>,
    product_id: i32,
    delta: i32,
    max_allowed: i32,
)
    requires
        delta > 0,
        max_allowed >= 1,
    ensures
        has_product(reconciled(cart, product_id, delta, max_allowed), product_id),
        1 <= quantity_of(reconciled(cart, product_id, delta, max_allowed), product_id)
            <= max_allowed,
        cart_wf(cart) ==> forall|i: int|
            0 <= i < reconciled(cart, product_id, delta, max_allowed).len() && (
            #[trigger] reconciled(cart, product_id, delta, max_allowed)[i]).product_id
                == product_id ==> reconciled(cart, product_id, delta, max_allowed)[i].quantity
                <= max_allowed,
{
    let out = reconciled(cart, product_id, delta, max_allowed);
    if has_product(cart, product_id) {
        lemma_first_line(cart, product_id);
        lemma_first_line_unique(out, product_id, first_line(cart, product_id));
    } else {
        lemma_first_line_unique(out, product_id, cart.len() as int);
    }
}

/// Removing a product that the cart does not hold changes nothing, so a
/// removal done twice is a removal done once.
pub proof fn law_removal_is_idempotent(
    cart: Seq<CartItem>,
    product_id: i32,
    max_allowed: i32,
    max_again: i32,
)
    ensures
        !has_product(cart, product_id) ==> reconciled(cart, product_id, 0, max_allowed) == cart,
        reconciled(reconciled(cart, product_id, 0, max_allowed), product_id, 0, max_again)
            == reconciled(cart, product_id, 0, max_allowed),
{
    lemma_without(cart, product_id);
    lemma_without(without(cart, product_id), product_id);
}

/// The quantity that follows from a quantity `held` of a product, zero for
/// none, when `delta` is applied under the ceiling `max_allowed`: the rule of
/// [`reconciled`] for the one product, with zero for "not in the cart".
pub open spec fn new_quantity(held: int, delta: i32, max_allowed: i32) -> int {
    if delta == 0 {
        0
    } else if delta > 0 {
        clamp(held + delta, 1, max_allowed as int)
    } else if held + delta < 1 {
        0
    } else {
        held + delta
    }
}

/// In a well-formed cart every line tells the quantity of its product.
pub proof fn lemma_line_tells_quantity(cart: Seq<CartItem>, i: int)
    requires
        cart_wf(cart),
        0 <= i < cart.len(),
    ensures
        has_product(cart, cart[i].product_id),
        first_line(cart, cart[i].product_id) == i,
        quantity_of(cart, cart[i].product_id) == cart[i].quantity,
{
    lemma_first_line_exists(cart, cart[i].product_id, i);
}

/// Read as a mapping from product to quantity, reconciliation changes the
/// entry of the one product by the rule of [`new_quantity`] and no other
/// entry at all.
pub proof fn law_reconciled_as_mapping(
    cart: Seq<CartItem>,
    product_id: i32,
    delta: i32,
    max_allowed: i32,
    other: i32,
)
    requires
        cart_wf(cart),
        delta > 0 ==> max_allowed >= 1,
    ensures
        quantity_of(reconciled(cart, product_id, delta, max_allowed), product_id) == new_quantity(
            quantity_of(cart, product_id),
            delta,
            max_allowed,
        ),
        other != product_id ==> quantity_of(
            reconciled(cart, product_id, delta, max_allowed),
            other,
        ) == quantity_of(cart, other),
{
    let out = reconciled(cart, product_id, delta, max_allowed);
    law_reconciled_cart_is_wf(cart, product_id, delta, max_allowed);
    if has_product(cart, product_id) {
        lemma_first_line(cart, product_id);
    }
    // The entry of the product itself.
    if has_product(out, product_id) {
        let at = choose|i: int| 0 <= i < out.len() && (#[trigger] out[i]).product_id == product_id;
        lemma_line_tells_quantity(out, at);
        if delta == 0 {
            lemma_without(cart, product_id);
        } else if has_product(cart, product_id) {
            let i = first_line(cart, product_id);
            lemma_line_tells_quantity(cart, i);
            if delta < 0 && cart[i].quantity + delta < 1 {
                // The line is gone, and the cart had no other for the product.
                let from = if at < i { at } else { at + 1 };
                assert(out[at] == cart[from]);
                lemma_line_tells_quantity(cart, from);
            } else {
                lemma_line_tells_quantity(out, i);
            }
        }
    } else if delta > 0 {
        law_growth_respects_ceiling(cart, product_id, delta, max_allowed);
    } else if delta < 0 && has_product(cart, product_id) {
        let i = first_line(cart, product_id);
        lemma_line_tells_quantity(cart, i);
        if cart[i].quantity + delta >= 1 {
            assert(out[i].product_id == product_id);
        }
    }
    // Every other entry.
    if other != product_id {
        if has_product(cart, other) {
            let from = choose|i: int|
                0 <= i < cart.len() && (#[trigger] cart[i]).product_id == other;
            lemma_line_tells_quantity(cart, from);
            let to = line_after(cart, product_id, delta, max_allowed, from);
            lemma_line_tells_quantity(out, to);
        } else if has_product(out, other) {
            let to = choose|i: int| 0 <= i < out.len() && (#[trigger] out[i]).product_id == other;
            let from = line_before(cart, product_id, delta, max_allowed, to);
        }
    }
}

/// A line of a cart for another product than the one reconciled is a line of
/// the reconciled cart: this is where.
proof fn line_after(
    cart: Seq<CartItem>,
    product_id: i32,
    delta: i32,
    max_allowed: i32,
    from: int,
) -> (to: int)
    requires
        0 <= from < cart.len(),
        cart[from].product_id != product_id,
    ensures
        0 <= to < reconciled(cart, product_id, delta, max_allowed).len(),
        reconciled(cart, product_id, delta, max_allowed)[to] == cart[from],
{
    let out = reconciled(cart, product_id, delta, max_allowed);
    if delta == 0 {
        cart.lemma_filter_contains(is_other_product(product_id), from);
        choose|to: int| 0 <= to < out.len() && out[to] == cart[from]
    } else if has_product(cart, product_id) {
        lemma_first_line(cart, product_id);
        let i = first_line(cart, product_id);
        if delta < 0 && cart[i].quantity + delta < 1 && from > i {
            from - 1
        } else {
            from
        }
    } else {
        from
    }
}

/// A line of a reconciled cart for another product than the one reconciled
/// was a line of the cart before: this is where.
proof fn line_before(
    cart: Seq<CartItem>,
    product_id: i32,
    delta: i32,
    max_allowed: i32,
    to: int,
) -> (from: int)
    requires
        0 <= to < reconciled(cart, product_id, delta, max_allowed).len(),
        reconciled(cart, product_id, delta, max_allowed)[to].product_id != product_id,
    ensures
        0 <= from < cart.len(),
        reconciled(cart, product_id, delta, max_allowed)[to] == cart[from],
{
    let out = reconciled(cart, product_id, delta, max_allowed);
    if delta == 0 {
        lemma_without(cart, product_id);
        choose|from: int| 0 <= from < cart.len() && cart[from] == out[to]
    } else if has_product(cart, product_id) {
        lemma_first_line(cart, product_id);
        let i = first_line(cart, product_id);
        if delta < 0 && cart[i].quantity + delta < 1 && to >= i {
            to + 1
        } else {
            to
        }
    } else {
        to
    }
}

/// The index of the first line for `product_id`, if the cart has one.
pub fn find_line(cart: &Vec<CartItem>, product_id: i32) -> (found: Option<usize>)
    ensures
        found is Some <==> has_product(cart@, product_id),
        found matches Some(i) ==> is_first_line(cart@, product_id, i as int) && i as int
            == first_line(cart@, product_id),
{
    let mut i: usize = 0;
    while i < cart.len()
        invariant
            i <= cart.len(),
            forall|j: int| 0 <= j < i ==> (#[trigger] cart@[j]).product_id != product_id,
        decreases cart.len() - i,
    {
        if cart[i].product_id == product_id {
            proof {
                lemma_first_line_unique(cart@, product_id, i as int);
            }
            return Some(i);
        }
        i += 1;
    }
    None
}

/// The quantity that the cart holds of `product_id`, if it holds any line for
/// it.
pub fn quantity_in_cart(cart: &Vec<CartItem>, product_id: i32) -> (found: Option<u32>)
    ensures
        found is Some <==> has_product(cart@, product_id),
        found matches Some(q) ==> q as int == quantity_of(cart@, product_id),
{
    match find_line(cart, product_id) {
        Some(i) => Some(cart[i].quantity),
        None => None,
    }
}

/// Takes every line for `product_id` out of the cart.
pub fn remove_product(cart: &mut Vec<CartItem>, product_id: i32)
    ensures
        final(cart)@ == without(old(cart)@, product_id),
{
    let mut kept: Vec<CartItem> = Vec::new();
    let mut i: usize = 0;
    while i < cart.len()
        invariant
            i <= cart.len(),
            kept@ == without(cart@.take(i as int), product_id),
        decreases cart.len() - i,
    {
        let item = cart[i];
        proof {
            let seen = cart@.take(i as int);
            assert(cart@.take(i + 1) == seen.push(item));
            seen.lemma_filter_push(item, is_other_product(product_id));
        }
        if item.product_id != product_id {
            kept.push(item);
        }
        i += 1;
    }
    assert(cart@.take(i as int) == cart@);
    *cart = kept;
}

/// Applies a quantity change to the cart: see [`reconciled`].
///
/// `max_allowed` is the ceiling for growth, the lesser of the live stock and
/// [`FIXED_PER_ORDER_CAP`]. Growth needs a ceiling of at least one, since no
/// line may hold less.
pub fn update_cart_quantity(
    cart: &mut Vec<CartItem>,
    product_id: i32,
    delta: i32,
    max_allowed: i32,
)
    requires
        delta > 0 ==> max_allowed >= 1,
    ensures
        final(cart)@ == reconciled(old(cart)@, product_id, delta, max_allowed),
        cart_wf(old(cart)@) ==> cart_wf(final(cart)@),
{
    proof {
        if cart_wf(cart@) {
            law_reconciled_cart_is_wf(cart@, product_id, delta, max_allowed);
        }
    }
    if delta == 0 {
        remove_product(cart, product_id);
    } else if delta > 0 {
        match find_line(cart, product_id) {
            Some(i) => {
                let wanted: i64 = cart[i].quantity as i64 + delta as i64;
                let quantity: i64 = if wanted > max_allowed as i64 {
                    max_allowed as i64
                } else {
                    wanted
                };
                cart.set(i, CartItem { product_id, quantity: quantity as u32 });
            },
            None => {
                let quantity: i32 = if delta > max_allowed {
                    max_allowed
                } else {
                    delta
                };
                cart.push(CartItem { product_id, quantity: quantity as u32 });
            },
        }
    } else {
        match find_line(cart, product_id) {
            Some(i) => {
                let wanted: i64 = cart[i].quantity as i64 + delta as i64;
                if wanted < 1 {
                    cart.remove(i);
                } else {
                    cart.set(i, CartItem { product_id, quantity: wanted as u32 });
                }
            },
            None => {},
        }
    }
}

} // verus!
