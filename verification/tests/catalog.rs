use beedle::cache::{initialize_caches, CategoriesCache};
use beedle::text::{same_text, text_is_blank};
use beedle::catalog::{
    build_query_string, count_filtered_products, current_page, filter_products, given_value,
    page_offset, pattern_for, sort_order, total_pages, SortOrder,
    PER_PAGE,
};
use beedle::config::Config;
use beedle::errors::{BeedleError, StoreOperation};

fn pair(name: &str, value: &str) -> (String, String) {
    (name.to_string(), value.to_string())
}

#[test]
fn test_initialization_of_cache() {
    let mut cache = CategoriesCache::new();
    let loaded = Ok(vec!["Dairy".to_string(), "Produce".to_string()]);
    initialize_caches(&mut cache, loaded).expect("Failed to cache from DB");

    // Ensure cache is initialized with correct data
    let cached_categories = cache.get_categories();
    assert!(!cached_categories.is_empty());
    assert!(cached_categories.contains(&"Produce".to_string()));
}

#[test]
fn test_cache_invalidation() {
    let mut cache = CategoriesCache::new();
    let loaded = Ok(vec!["Dairy".to_string(), "Produce".to_string()]);
    initialize_caches(&mut cache, loaded).expect("Failed to cache from DB");

    cache.invalidate();
    let cached_categories = cache.get_categories();
    assert!(cached_categories.is_empty());
}

#[test]
fn cache_is_replaced_as_a_whole() {
    let mut cache = CategoriesCache::new();
    assert!(cache.get_categories().is_empty());
    cache.initialize(vec!["Dairy".to_string(), "Produce".to_string()]);
    cache.initialize(vec!["Bakery".to_string()]);
    assert_eq!(cache.get_categories(), &vec!["Bakery".to_string()]);
}

#[test]
fn failed_load_keeps_the_cache() {
    let mut cache = CategoriesCache::new();
    cache.initialize(vec!["Dairy".to_string()]);
    let down = BeedleError::StorageUnavailable { operation: StoreOperation::LoadCategories };
    assert_eq!(initialize_caches(&mut cache, Err(down)), Err(down));
    assert_eq!(cache.get_categories(), &vec!["Dairy".to_string()]);
}

#[test]
fn config_holds_name_and_domain() {
    let config = Config { site_name: "Beedle".to_string(), root_domain: "example.com".to_string() };
    let copy = config.clone();
    assert_eq!(copy.site_name, "Beedle");
    assert_eq!(copy.root_domain, "example.com");
}

#[test]
fn blank_texts() {
    assert!(text_is_blank(""));
    assert!(text_is_blank("   "));
    assert!(text_is_blank(" \t\r\n"));
    assert!(text_is_blank("\u{a0}\u{2003}\u{3000}"));
    assert!(!text_is_blank(" a "));
    assert!(!text_is_blank("_"));
    assert!(!text_is_blank("\u{200b}"));
}

#[test]
fn same_text_compares_whole_texts() {
    assert!(same_text("alpha", "alpha"));
    assert!(!same_text("alpha", "Alpha"));
    assert!(!same_text("alpha", "alph"));
    assert!(same_text("", ""));
}

#[test]
fn sort_orders() {
    assert_eq!(sort_order(Some("alpha")), SortOrder::NameAscending);
    assert_eq!(sort_order(Some("price_low")), SortOrder::PriceAscending);
    assert_eq!(sort_order(Some("price_high")), SortOrder::PriceDescending);
    assert_eq!(sort_order(Some("newest")), SortOrder::PriceAscending);
    assert_eq!(sort_order(Some("")), SortOrder::PriceAscending);
    assert_eq!(sort_order(None), SortOrder::PriceAscending);
}

#[test]
fn blank_filters_ask_for_nothing() {
    let filter = count_filtered_products(Some("  "), Some(""), None);
    assert_eq!(filter.category, None);
    assert_eq!(filter.tag_pattern, None);
    assert_eq!(filter.search_pattern, None);
    assert_eq!(given_value(Some("\t")), None);
    assert_eq!(pattern_for(Some("\n")), None);
}

#[test]
fn filters_keep_the_category_and_wrap_the_patterns() {
    let filter = count_filtered_products(Some("Fruit"), Some("organic"), Some(" red apple "));
    assert_eq!(filter.category.as_deref(), Some("Fruit"));
    assert_eq!(filter.tag_pattern.as_deref(), Some("%organic%"));
    assert_eq!(filter.search_pattern.as_deref(), Some("% red apple %"));
    assert_eq!(given_value(Some(" Fruit")).as_deref(), Some(" Fruit"));
    assert_eq!(pattern_for(Some("50%")).as_deref(), Some("%50%%"));
}

#[test]
fn listing_query_carries_filters_order_and_window() {
    let query = filter_products(Some("Fruit"), None, Some("pie"), Some("price_high"), 4, 8);
    assert_eq!(query.filter.category.as_deref(), Some("Fruit"));
    assert_eq!(query.filter.tag_pattern, None);
    assert_eq!(query.filter.search_pattern.as_deref(), Some("%pie%"));
    assert_eq!(query.sort, SortOrder::PriceDescending);
    assert_eq!(query.limit, 4);
    assert_eq!(query.offset, 8);
}

#[test]
fn pages_and_offsets() {
    assert_eq!(PER_PAGE, 4);
    assert_eq!(current_page(None), 1);
    assert_eq!(current_page(Some(0)), 1);
    assert_eq!(current_page(Some(1)), 1);
    assert_eq!(current_page(Some(7)), 7);
    assert_eq!(page_offset(1), Some(0));
    assert_eq!(page_offset(2), Some(4));
    assert_eq!(page_offset(7), Some(24));
    assert_eq!(page_offset(0), None);
    assert_eq!(page_offset(usize::MAX), None);
}

#[test]
fn total_pages_rounds_up() {
    assert_eq!(total_pages(0), 1);
    assert_eq!(total_pages(1), 1);
    assert_eq!(total_pages(4), 1);
    assert_eq!(total_pages(5), 2);
    assert_eq!(total_pages(8), 2);
    assert_eq!(total_pages(9), 3);
    assert_eq!(total_pages(-3), 1);
    assert_eq!(total_pages(i64::MAX), 2305843009213693952);
}

#[test]
fn query_string_joins_and_encodes() {
    let params = vec![pair("category", "Fruit"), pair("search", "Apple")];
    assert_eq!(build_query_string(&params), "category=Fruit&search=Apple");
    let params = vec![pair("category", "Fruit & Veg"), pair("search", "caf\u{e9} 50%")];
    assert_eq!(build_query_string(&params), "category=Fruit%20%26%20Veg&search=caf%C3%A9%2050%25");
    let params = vec![pair("q", "a-b_c.d~e/f")];
    assert_eq!(build_query_string(&params), "q=a-b_c.d~e%2Ff");
}

#[test]
fn query_string_skips_blank_values() {
    let params = vec![pair("category", " "), pair("sort", "alpha"), pair("search", "")];
    assert_eq!(build_query_string(&params), "sort=alpha");
    let params = vec![pair("category", ""), pair("sort", "\t")];
    assert_eq!(build_query_string(&params), "");
    assert_eq!(build_query_string(&Vec::new()), "");
    let params = vec![pair("a", "1"), pair("b", " "), pair("c", "3")];
    assert_eq!(build_query_string(&params), "a=1&c=3");
}
