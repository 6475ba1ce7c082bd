use beedle::cart::{
    find_line, quantity_in_cart, remove_product, update_cart_quantity, CartItem,
    FIXED_PER_ORDER_CAP,
};

fn line(product_id: i32, quantity: u32) -> CartItem {
    CartItem { product_id, quantity }
}

#[test]
fn reconcile_inserts_into_empty_cart() {
    let mut cart: Vec<CartItem> = Vec::new();
    update_cart_quantity(&mut cart, 42, 5, 10);
    assert_eq!(cart, vec![line(42, 5)]);
}

#[test]
fn reconcile_removes_when_quantity_falls_below_one() {
    let mut cart = vec![line(5, 3)];
    update_cart_quantity(&mut cart, 5, -10, 10);
    assert_eq!(cart, Vec::<CartItem>::new());
}

#[test]
fn zero_delta_removes_present_product() {
    let mut cart = vec![line(1, 2), line(2, 7), line(3, 1)];
    update_cart_quantity(&mut cart, 2, 0, 10);
    assert_eq!(cart, vec![line(1, 2), line(3, 1)]);
    assert_eq!(find_line(&cart, 2), None);
}

#[test]
fn zero_delta_on_absent_product_changes_nothing() {
    let mut cart = vec![line(1, 2), line(3, 1)];
    update_cart_quantity(&mut cart, 2, 0, 10);
    assert_eq!(cart, vec![line(1, 2), line(3, 1)]);
    update_cart_quantity(&mut cart, 2, 0, 0);
    assert_eq!(cart, vec![line(1, 2), line(3, 1)]);
}

#[test]
fn a_run_of_removals_leaves_each_product_absent() {
    let mut cart = vec![line(1, 2), line(2, 7), line(3, 1), line(4, 4)];
    for product_id in [3, 1, 3, 4] {
        update_cart_quantity(&mut cart, product_id, 0, 5);
    }
    assert_eq!(cart, vec![line(2, 7)]);
}

#[test]
fn growth_is_capped_at_the_ceiling() {
    let mut cart = vec![line(7, 8)];
    update_cart_quantity(&mut cart, 7, 5, 10);
    assert_eq!(cart, vec![line(7, 10)]);
    update_cart_quantity(&mut cart, 7, 1, 10);
    assert_eq!(cart, vec![line(7, 10)]);
    update_cart_quantity(&mut cart, 8, 500, 10);
    assert_eq!(cart, vec![line(7, 10), line(8, 10)]);
}

#[test]
fn growth_below_the_ceiling_adds_exactly() {
    let mut cart = vec![line(7, 3), line(9, 1)];
    update_cart_quantity(&mut cart, 7, 4, 10);
    assert_eq!(cart, vec![line(7, 7), line(9, 1)]);
}

#[test]
fn growth_pulls_a_quantity_above_the_ceiling_down_to_it() {
    // The stock fell since the line was put in the cart.
    let mut cart = vec![line(7, 30)];
    update_cart_quantity(&mut cart, 7, 1, 10);
    assert_eq!(cart, vec![line(7, 10)]);
}

#[test]
fn shrinking_ignores_the_ceiling() {
    let mut cart = vec![line(7, 30)];
    update_cart_quantity(&mut cart, 7, -1, 10);
    assert_eq!(cart, vec![line(7, 29)]);
}

#[test]
fn shrinking_to_exactly_one_keeps_the_line() {
    let mut cart = vec![line(7, 3)];
    update_cart_quantity(&mut cart, 7, -2, 10);
    assert_eq!(cart, vec![line(7, 1)]);
    update_cart_quantity(&mut cart, 7, -1, 10);
    assert_eq!(cart, Vec::<CartItem>::new());
}

#[test]
fn shrinking_an_absent_product_changes_nothing() {
    let mut cart = vec![line(7, 3)];
    update_cart_quantity(&mut cart, 8, -2, 10);
    assert_eq!(cart, vec![line(7, 3)]);
}

#[test]
fn quantities_never_fall_below_one() {
    let mut cart: Vec<CartItem> = Vec::new();
    let steps = [(1, 3), (2, 1), (1, -2), (2, -1), (3, 99), (3, -98), (1, 0), (3, -5)];
    for (product_id, delta) in steps {
        update_cart_quantity(&mut cart, product_id, delta, 99);
        assert!(cart.iter().all(|item| item.quantity >= 1));
        let mut ids: Vec<i32> = cart.iter().map(|item| item.product_id).collect();
        ids.sort();
        ids.dedup();
        assert_eq!(ids.len(), cart.len());
    }
    assert_eq!(cart, Vec::<CartItem>::new());
}

#[test]
fn extreme_quantities_do_not_overflow() {
    let mut cart = vec![line(1, u32::MAX)];
    update_cart_quantity(&mut cart, 1, i32::MAX, 99);
    assert_eq!(cart, vec![line(1, 99)]);
    let mut cart = vec![line(1, u32::MAX)];
    update_cart_quantity(&mut cart, 1, i32::MIN, 99);
    assert_eq!(cart, vec![line(1, u32::MAX - (1u32 << 31))]);
    let mut cart = vec![line(1, 5)];
    update_cart_quantity(&mut cart, 1, i32::MIN, 99);
    assert_eq!(cart, Vec::<CartItem>::new());
}

#[test]
fn first_line_wins_in_a_cart_with_two_lines_for_one_product() {
    let mut cart = vec![line(1, 2), line(1, 5)];
    assert_eq!(find_line(&cart, 1), Some(0));
    assert_eq!(quantity_in_cart(&cart, 1), Some(2));
    update_cart_quantity(&mut cart, 1, 1, 10);
    assert_eq!(cart, vec![line(1, 3), line(1, 5)]);
    update_cart_quantity(&mut cart, 1, 0, 10);
    assert_eq!(cart, Vec::<CartItem>::new());
}

#[test]
fn remove_product_keeps_the_order_of_the_rest() {
    let mut cart = vec![line(3, 1), line(1, 2), line(2, 7)];
    remove_product(&mut cart, 1);
    assert_eq!(cart, vec![line(3, 1), line(2, 7)]);
}

#[test]
fn quantity_in_cart_of_absent_product_is_none() {
    let cart = vec![line(3, 1)];
    assert_eq!(quantity_in_cart(&cart, 4), None);
    assert_eq!(quantity_in_cart(&cart, 3), Some(1));
}

#[test]
fn per_order_cap_is_ninety_nine() {
    assert_eq!(FIXED_PER_ORDER_CAP, 99);
}
