//! What the site is called and where it lives.

use vstd::prelude::*;

verus! {

/// The configuration of the site.
#[derive(Clone, Debug)]
pub struct Config {
    pub site_name: String,
    pub root_domain: String,
}

} // verus!
