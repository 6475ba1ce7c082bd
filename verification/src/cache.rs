//! The cache of the catalog's categories.
//!
//! The cache is an ordinary value: whoever composes the application owns it
//! and hands it to its readers, behind whatever lock it chooses. It is filled
//! as a whole and emptied as a whole, never line by line.

use vstd::prelude::*;
use crate::errors::BeedleError;

verus! {

/// The distinct categories of the catalog, as they were last loaded.
#[derive(Debug)]
pub struct CategoriesCache {
    data: Vec<String>,
}

impl View for CategoriesCache {
    type V = Seq<Seq<char>>;

    /// The cached categories, in the order in which they were loaded.
    closed spec fn view(&self) -> Seq<Seq<char>> {
        self.data.deep_view()
    }
}

impl CategoriesCache {
    /// An empty cache.
    pub fn new() -> (cache: CategoriesCache)
        ensures
            cache@ == Seq::<Seq<char>>::empty(),
    {
        let cache = CategoriesCache { data: Vec::new() };
        cache
    }

    /// Replaces whatever the cache holds by `data`.
    pub fn initialize(&mut self, data: Vec<String>)
        ensures
            final(self)@ == data.deep_view(),
    {
        self.data = data;
    }

    /// The cached categories.
    pub fn get_categories(&self) -> (categories: &Vec<String>)
        ensures
            categories.deep_view() == self@,
    {
        &self.data
    }

    /// Empties the cache.
    pub fn invalidate(&mut self)
        ensures
            final(self)@ == Seq::<Seq<char>>::empty(),
    {
        self.data.clear();
    }
}

/// Fills the cache from what storage answered when asked for the catalog's
/// distinct categories. Where storage failed, the failure is handed on and
/// the cache keeps what it held.
pub fn initialize_caches(
    cache: &mut CategoriesCache,
    loaded: Result<Vec<String>, BeedleError>,
) -> (outcome: Result<(), BeedleError>)
    ensures
        match loaded {
            Ok(categories) => outcome is Ok && final(cache)@ == categories.deep_view(),
            Err(error) => outcome == Err::<(), BeedleError>(error) && final(cache)@ == old(
                cache,
            )@,
        },
{
    match loaded {
        Ok(categories) => {
            cache.initialize(categories);
            Ok(())
        },
        Err(error) => Err(error),
    }
}

} // verus!
