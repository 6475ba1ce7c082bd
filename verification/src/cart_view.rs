//! The cart as its page shows it: the lines with their ceilings, the offer to
//! undo a removal, and the address that a changed cart sends the visitor to.

use vstd::prelude::*;
use vstd::string::*;
use crate::cart::CartItem;
use crate::cart_update::UndoOffer;
use crate::product::{find_product, first_with_id, has_id, Product};
use crate::text::{decimal, push_decimal, push_signed_decimal, signed_decimal};

verus! {

/// One line of the cart page.
#[derive(Clone, Copy, Debug, PartialEq, Eq, Structural)]
pub struct CartLine {
    /// Where the line's product stands among the products given.
    pub product_index: usize,
    pub product_id: i32,
    pub quantity: u32,
    /// The most units that the line may grow to, by the stock as it is now.
    pub max_quantity: i32,
}

/// The line of the cart page for `item`, whose product is `products[at]`.
pub open spec fn line_for(products: Seq<Product>, item: CartItem, at: int) -> CartLine {
    CartLine {
        product_index: at as usize,
        product_id: item.product_id,
        quantity: item.quantity,
        max_quantity: products[at].spec_max_allowed(),
    }
}

/// The lines of the cart page: one for every line of the cart whose product
/// is among `products`, in the order of the cart. A line whose product is
/// gone is not shown.
pub open spec fn cart_lines_of(cart: Seq<CartItem>, products: Seq<Product>) -> Seq<CartLine>
    decreases cart.len(),
{
    if cart.len() == 0 {
        Seq::empty()
    } else {
        let before = cart_lines_of(cart.drop_last(), products);
        let item = cart.last();
        if has_id(products, item.product_id) {
            before.push(line_for(products, item, first_with_id(products, item.product_id)))
        } else {
            before
        }
    }
}

/// The lines of the cart page: see [`cart_lines_of`].
pub fn cart_lines(cart: &Vec<CartItem>, products: &Vec<Product>) -> (lines: Vec<CartLine>)
    ensures
        lines@ == cart_lines_of(cart@, products@),
{
    let mut lines: Vec<CartLine> = Vec::new();
    let mut i: usize = 0;
    while i < cart.len()
        invariant
            i <= cart.len(),
            lines@ == cart_lines_of(cart@.take(i as int), products@),
        decreases cart.len() - i,
    {
        let item = cart[i];
        proof {
            assert(cart@.take(i + 1).drop_last() == cart@.take(i as int));
        }
        match find_product(products, item.product_id) {
            Some(at) => {
                lines.push(
                    CartLine {
                        product_index: at,
                        product_id: item.product_id,
                        quantity: item.quantity,
                        max_quantity: products[at].max_allowed(),
                    },
                );
            },
            None => {},
        }
        i += 1;
    }
    assert(cart@.take(i as int) == cart@);
    lines
}

/// The quantity that an undo puts back: the one that the request names, or
/// one where it names none.
pub fn undo_quantity(undo_qty: Option<u32>) -> (quantity: u32)
    ensures
        quantity == match undo_qty {
            Some(q) => q,
            None => 1,
        },
{
    match undo_qty {
        Some(q) => q,
        None => 1,
    }
}

/// The address of the cart page after a change: bare, or with the product of
/// an undo offer, and with the offer's quantity where that is more than one.
pub open spec fn cart_location_of(undo: Option<UndoOffer>) -> Seq<char> {
    match undo {
        None => "/cart"@,
        Some(offer) => if offer.quantity > 1 {
            "/cart?undo_id="@ + signed_decimal(offer.product_id as int) + "&undo_qty="@ + decimal(
                offer.quantity as nat,
            )
        } else {
            "/cart?undo_id="@ + signed_decimal(offer.product_id as int)
        },
    }
}

/// The address of the cart page after a change: see [`cart_location_of`].
pub fn cart_location(undo: Option<UndoOffer>) -> (location: String)
    ensures
        location@ == cart_location_of(undo),
{
    match undo {
        None => String::from_str("/cart"),
        Some(offer) => {
            let mut location = String::from_str("/cart?undo_id=");
            push_signed_decimal(&mut location, offer.product_id as i64);
            if offer.quantity > 1 {
                location.append("&undo_qty=");
                push_decimal(&mut location, offer.quantity as u64);
            }
            location
        },
    }
}

} // verus!
