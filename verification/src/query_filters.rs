//! The extra filter choices offered for each search category.

use crate::search::SearchCategory;
use vstd::prelude::*;
use vstd::string::StringExecFns;

verus! {

/// The filter names offered for a category; every category currently offers
/// the same single placeholder entry.
pub fn get_filter_categories(search_category: &SearchCategory) -> (r: Vec<String>)
    ensures
        r@.len() == 1,
        r@[0]@ == "Filter A"@,
{
    let _ = search_category;
    let mut v: Vec<String> = Vec::new();
    v.push(String::from_str("Filter A"));
    v
}

} // verus!
