//! Browsing the catalog: what a listing asks of storage, the pages of a
//! listing, and the query string that carries the filters from page to page.
//!
//! Nothing here reads the catalog. A listing request becomes a
//! [`ProductQuery`], which names the filters, the order and the window for
//! whatever storage there is to apply.

use vstd::prelude::*;
use vstd::string::*;
use vstd::utf8::encode_utf8;
use crate::text::{is_blank, same_text, text_is_blank};

verus! {

/// The number of products on one page of a listing.
pub const PER_PAGE: usize = 4;

/// The order of a listing.
#[derive(Clone, Copy, Debug, PartialEq, Eq, Structural)]
pub enum SortOrder {
    NameAscending,
    PriceAscending,
    PriceDescending,
}

/// The order that a request asks for: `alpha` is by name, `price_high` by
/// price from the highest, and `price_low`, anything else and nothing by
/// price from the lowest.
pub open spec fn sort_of(sort: Option<Seq<char>>) -> SortOrder {
    match sort {
        Some(key) => if key == "alpha"@ {
            SortOrder::NameAscending
        } else if key == "price_high"@ {
            SortOrder::PriceDescending
        } else {
            SortOrder::PriceAscending
        },
        None => SortOrder::PriceAscending,
    }
}

/// The order that a request asks for: see [`sort_of`].
pub fn sort_order(sort: Option<&str>) -> (order: SortOrder)
    ensures
        order == sort_of(
            match sort {
                Some(key) => Some(key@),
                None => None,
            },
        ),
{
    match sort {
        Some(key) => {
            if same_text(key, "alpha") {
                SortOrder::NameAscending
            } else if same_text(key, "price_high") {
                SortOrder::PriceDescending
            } else {
                SortOrder::PriceAscending
            }
        },
        None => SortOrder::PriceAscending,
    }
}

/// A filter value that counts: one that is given and is not blank.
pub open spec fn given(value: Option<Seq<char>>) -> Option<Seq<char>> {
    match value {
        Some(text) => if is_blank(text) {
            None
        } else {
            Some(text)
        },
        None => None,
    }
}

/// The pattern that matches every text in which `text` occurs: `text`
/// between two percent signs.
pub open spec fn contains_pattern(text: Seq<char>) -> Seq<char> {
    seq!['%'] + text + seq!['%']
}

/// The pattern for a filter value, if the value counts.
pub open spec fn pattern_of(value: Option<Seq<char>>) -> Option<Seq<char>> {
    match given(value) {
        Some(text) => Some(contains_pattern(text)),
        None => None,
    }
}

/// The filters of a listing. A filter that is `None` lets every product
/// through.
#[derive(Clone, Debug)]
pub struct ProductFilter {
    /// The category that a product must be in.
    pub category: Option<String>,
    /// The pattern that a product's tags must match, case and all.
    pub tag_pattern: Option<String>,
    /// The pattern that a product's name, description or tagline must match,
    /// whatever the case.
    pub search_pattern: Option<String>,
}

/// What a [`ProductFilter`] holds, as mathematical values.
pub struct ProductFilterView {
    pub category: Option<Seq<char>>,
    pub tag_pattern: Option<Seq<char>>,
    pub search_pattern: Option<Seq<char>>,
}

/// The view of an optional text.
pub open spec fn text_of(text: Option<String>) -> Option<Seq<char>> {
    match text {
        Some(t) => Some(t@),
        None => None,
    }
}

/// The view of an optional text slice.
pub open spec fn slice_of(text: Option<&str>) -> Option<Seq<char>> {
    match text {
        Some(t) => Some(t@),
        None => None,
    }
}

impl View for ProductFilter {
    type V = ProductFilterView;

    open spec fn view(&self) -> ProductFilterView {
        ProductFilterView {
            category: text_of(self.category),
            tag_pattern: text_of(self.tag_pattern),
            search_pattern: text_of(self.search_pattern),
        }
    }
}

/// The filters that a request asks for. A blank value asks for nothing; a
/// category is taken as it is, a tag and a search text as patterns.
pub open spec fn filter_of(
    category: Option<Seq<char>>,
    tag: Option<Seq<char>>,
    search: Option<Seq<char>>,
) -> ProductFilterView {
    ProductFilterView {
        category: given(category),
        tag_pattern: pattern_of(tag),
        search_pattern: pattern_of(search),
    }
}

/// A filter value, if it counts: see [`given`].
pub fn given_value(value: Option<&str>) -> (kept: Option<String>)
    ensures
        text_of(kept) == given(slice_of(value)),
{
    match value {
        Some(text) => {
            if text_is_blank(text) {
                None
            } else {
                Some(String::from_str(text))
            }
        },
        None => None,
    }
}

/// The pattern for a filter value, if it counts: see [`pattern_of`].
pub fn pattern_for(value: Option<&str>) -> (pattern: Option<String>)
    ensures
        text_of(pattern) == pattern_of(slice_of(value)),
{
    match value {
        Some(text) => {
            if text_is_blank(text) {
                None
            } else {
                proof {
                    reveal_strlit("%");
                }
                let mut pattern = String::from_str("%");
                pattern.append(text);
                pattern.append("%");
                Some(pattern)
            }
        },
        None => None,
    }
}

/// The filters by which the products of a listing are counted: see
/// [`filter_of`].
pub fn count_filtered_products(
    category_opt: Option<&str>,
    tag_opt: Option<&str>,
    search_opt: Option<&str>,
) -> (filter: ProductFilter)
    ensures
        filter@ == filter_of(slice_of(category_opt), slice_of(tag_opt), slice_of(search_opt)),
{
    ProductFilter {
        category: given_value(category_opt),
        tag_pattern: pattern_for(tag_opt),
        search_pattern: pattern_for(search_opt),
    }
}

/// What a listing asks of storage: the filters, the order, and the window of
/// at most `limit` products behind the first `offset`.
#[derive(Clone, Debug)]
pub struct ProductQuery {
    pub filter: ProductFilter,
    pub sort: SortOrder,
    pub limit: usize,
    pub offset: usize,
}

/// What a [`ProductQuery`] holds, as mathematical values.
pub struct ProductQueryView {
    pub filter: ProductFilterView,
    pub sort: SortOrder,
    pub limit: usize,
    pub offset: usize,
}

impl View for ProductQuery {
    type V = ProductQueryView;

    open spec fn view(&self) -> ProductQueryView {
        ProductQueryView {
            filter: self.filter@,
            sort: self.sort,
            limit: self.limit,
            offset: self.offset,
        }
    }
}

/// What a listing request asks of storage: the filters of [`filter_of`], the
/// order of [`sort_of`], and the window as it is given.
pub fn filter_products(
    category_opt: Option<&str>,
    tag_opt: Option<&str>,
    search_opt: Option<&str>,
    sort_opt: Option<&str>,
    limit_opt: usize,
    offset_opt: usize,
) -> (query: ProductQuery)
    ensures
        query@ == (ProductQueryView {
            filter: filter_of(slice_of(category_opt), slice_of(tag_opt), slice_of(search_opt)),
            sort: sort_of(slice_of(sort_opt)),
            limit: limit_opt,
            offset: offset_opt,
        }),
{
    ProductQuery {
        filter: count_filtered_products(category_opt, tag_opt, search_opt),
        sort: sort_order(sort_opt),
        limit: limit_opt,
        offset: offset_opt,
    }
}

/// The page that a request asks for: the first where it names none, or names
/// page zero.
pub fn current_page(page: Option<usize>) -> (current: usize)
    ensures
        current == match page {
            Some(p) => if p >= 1 {
                p
            } else {
                1
            },
            None => 1,
        },
        current >= 1,
{
    match page {
        Some(p) => if p >= 1 {
            p
        } else {
            1
        },
        None => 1,
    }
}

/// The number of products before page `page`, or `None` where there is no
/// such page: page zero, or a page so far out that the number does not fit.
pub fn page_offset(page: usize) -> (offset: Option<usize>)
    ensures
        offset == if page >= 1 && (page - 1) * PER_PAGE <= usize::MAX {
            Some(((page - 1) * PER_PAGE) as usize)
        } else {
            None
        },
{
    if page >= 1 {
        (page - 1).checked_mul(PER_PAGE)
    } else {
        None
    }
}

/// The number of pages that `total_items` products fill, the last one not
/// necessarily to the full. A listing without products has one page all the
/// same.
pub open spec fn pages_for(total_items: int) -> int {
    if total_items <= 0 {
        1
    } else {
        (total_items + PER_PAGE - 1) / (PER_PAGE as int)
    }
}

/// The number of pages of a listing of `total_items` products: see
/// [`pages_for`].
pub fn total_pages(total_items: i64) -> (pages: u64)
    ensures
        pages == pages_for(total_items as int),
        pages >= 1,
{
    if total_items <= 0 {
        1
    } else {
        ((total_items - 1) / (PER_PAGE as i64) + 1) as u64
    }
}

/// Whether `urlencoding` leaves the byte as it is: an ASCII letter or digit,
/// or one of `-`, `_`, `.` and `~`.
pub open spec fn is_unreserved(byte: u8) -> bool {
    ||| 0x30 <= byte <= 0x39
    ||| 0x41 <= byte <= 0x5a
    ||| 0x61 <= byte <= 0x7a
    ||| byte == 0x2d
    ||| byte == 0x2e
    ||| byte == 0x5f
    ||| byte == 0x7e
}

/// The upper-case hexadecimal digit for `nibble`. Meaningful for `0 ..= 15`.
pub open spec fn hex_upper(nibble: u8) -> char {
    if nibble < 10 {
        (0x30 + nibble) as char
    } else {
        (0x41 + nibble - 10) as char
    }
}

/// One byte, percent-encoded: itself where it is unreserved, else a percent
/// sign and its two hexadecimal digits.
pub open spec fn percent_encoded_byte(byte: u8) -> Seq<char> {
    if is_unreserved(byte) {
        seq![byte as char]
    } else {
        seq!['%', hex_upper(byte / 16), hex_upper(byte % 16)]
    }
}

/// A run of bytes, percent-encoded byte by byte.
pub open spec fn percent_encoded(bytes: Seq<u8>) -> Seq<char>
    decreases bytes.len(),
{
    if bytes.len() == 0 {
        Seq::empty()
    } else {
        percent_encoded(bytes.drop_last()) + percent_encoded_byte(bytes.last())
    }
}

/// Calls `urlencoding::encode`, which percent-encodes every byte of the
/// text's UTF-8 form except ASCII letters and digits and `-`, `_`, `.`, `~`,
/// with upper-case hexadecimal digits. Trusted: the result is that encoding.
#[verifier::external_body]
fn url_encode(text: &str) -> (encoded: String)
    ensures
        encoded@ == percent_encoded(encode_utf8(text@)),
{
    urlencoding::encode(text).into_owned()
}

/// One parameter of a query string: the name, an equals sign, and the value
/// percent-encoded.
pub open spec fn query_parameter(name: Seq<char>, value: Seq<char>) -> Seq<char> {
    name + seq!['='] + percent_encoded(encode_utf8(value))
}

/// The query string for `params`, pairs of name and value: the parameters
/// whose value is not blank, in the order given, with an ampersand between
/// one and the next.
pub open spec fn query_string_of(params: Seq<(Seq<char>, Seq<char>)>) -> Seq<char>
    decreases params.len(),
{
    if params.len() == 0 {
        Seq::empty()
    } else {
        let before = query_string_of(params.drop_last());
        let (name, value) = params.last();
        if is_blank(value) {
            before
        } else if before.len() == 0 {
            query_parameter(name, value)
        } else {
            before + seq!['&'] + query_parameter(name, value)
        }
    }
}

/// The views of pairs of name and value.
pub open spec fn pairs_of(params: Seq<(String, String)>) -> Seq<(Seq<char>, Seq<char>)> {
    Seq::new(params.len(), |i: int| (params[i].0@, params[i].1@))
}

/// Builds the query string that carries the filters of a listing to its
/// other pages: see [`query_string_of`].
pub fn build_query_string(params: &Vec<(String, String)>) -> (query: String)
    ensures
        query@ == query_string_of(pairs_of(params@)),
{
    let mut query = String::new();
    let mut first = true;
    let mut i: usize = 0;
    while i < params.len()
        invariant
            i <= params.len(),
            query@ == query_string_of(pairs_of(params@).take(i as int)),
            first == (query@.len() == 0),
        decreases params.len() - i,
    {
        proof {
            let pairs = pairs_of(params@);
            assert(pairs.take(i + 1).drop_last() == pairs.take(i as int));
            reveal_strlit("&");
            reveal_strlit("=");
        }
        let name = &params[i].0;
        let value = &params[i].1;
        if !text_is_blank(value.as_str()) {
            if !first {
                query.append("&");
            }
            query.append(name.as_str());
            query.append("=");
            let encoded = url_encode(value.as_str());
            query.append(encoded.as_str());
            first = false;
        }
        i += 1;
    }
    assert(pairs_of(params@).take(i as int) == pairs_of(params@));
    query
}

} // verus!
