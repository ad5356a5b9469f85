//! Search state: the current category, query text, result list and
//! selection, together with the decisions that drive queries.
//!
//! The state machine is synchronous and split around the network round-trip:
//! one function clears the state and builds the query to send, the caller
//! executes it, and a second function installs the outcome.  A failed query
//! is non-fatal: it leaves the list empty and the pane usable.

use crate::query::like_pattern_of;
use crate::query::MHWQueryError;
use crate::query::QueryFilter;
use crate::query::QueryFilterType;
use crate::query::QueryInfo;
use crate::query::QueryProjectionMeta;
use crate::text::dec_digits;
use crate::text::u32_to_dec;
use vstd::prelude::*;
use vstd::string::StringExecFns;

verus! {

/// The remote resource a search targets.  `MAX` is the out-of-range sentinel
/// used by the selection widgets; it never names a real resource.
#[derive(Clone, Copy, PartialEq, Eq, Structural, Debug)]
pub enum SearchCategory {
    Armor,
    Weapons,
    Items,
    MAX,
}

/// The resource path segment for a category; the sentinel renders as an
/// error marker.
pub open spec fn category_label(c: SearchCategory) -> Seq<char> {
    match c {
        SearchCategory::Armor => "armor"@,
        SearchCategory::Weapons => "weapons"@,
        SearchCategory::Items => "items"@,
        SearchCategory::MAX => "ERROR"@,
    }
}

impl SearchCategory {
    pub fn label(&self) -> (r: &'static str)
        ensures
            r@ == category_label(*self),
    {
        match self {
            SearchCategory::Armor => "armor",
            SearchCategory::Weapons => "weapons",
            SearchCategory::Items => "items",
            SearchCategory::MAX => "ERROR",
        }
    }

    /// The category at a selection-widget index, in declaration order.
    pub fn from_i32(v: i32) -> (r: Option<SearchCategory>)
        ensures
            r == if v == 0 {
                Some(SearchCategory::Armor)
            } else if v == 1 {
                Some(SearchCategory::Weapons)
            } else if v == 2 {
                Some(SearchCategory::Items)
            } else if v == 3 {
                Some(SearchCategory::MAX)
            } else {
                None::<SearchCategory>
            },
    {
        match v {
            0 => Some(SearchCategory::Armor),
            1 => Some(SearchCategory::Weapons),
            2 => Some(SearchCategory::Items),
            3 => Some(SearchCategory::MAX),
            _ => None,
        }
    }
}

impl Default for SearchCategory {
    fn default() -> (r: Self)
        ensures
            r == SearchCategory::Armor,
    {
        SearchCategory::Armor
    }
}

/// A minimal id/name record returned by a narrow find query, used purely to
/// populate the selection list.
#[derive(Debug)]
pub struct SearchResults {
    pub id: u32,
    pub name: String,
}

/// The search pane's state: the current category and query text, the result
/// list (replaced wholesale per query) and the selected index, -1 meaning
/// none.
#[derive(Debug)]
pub struct SearchState {
    pub search_type: SearchCategory,
    pub text: String,
    pub selected_item: i32,
    pub should_draw: bool,
    pub results: Vec<SearchResults>,
    pub filters: Vec<QueryFilter>,
}

impl Default for SearchState {
    fn default() -> (r: Self)
        ensures
            r.search_type == SearchCategory::Armor,
            r.text@ == Seq::<char>::empty(),
            r.selected_item == -1,
            r.should_draw,
            r.results@ =~= Seq::<SearchResults>::empty(),
    {
        SearchState {
            search_type: SearchCategory::Armor,
            text: String::new(),
            selected_item: -1,
            should_draw: true,
            results: Vec::new(),
            filters: Vec::new(),
        }
    }
}

impl SearchState {
    /// First half of a search commit: clears the result list and the
    /// selection and builds the narrow name query for the current text and
    /// category.  The transport layer executes it and hands the outcome to
    /// `finish_query`.
    pub fn start_query(&mut self) -> (q: QueryInfo)
        ensures
            final(self).selected_item == -1,
            final(self).results@ =~= Seq::<SearchResults>::empty(),
            *final(self) == (SearchState {
                selected_item: final(self).selected_item,
                results: final(self).results,
                ..*old(self)
            }),
            q.category == old(self).search_type,
            match q.filter {
                Some(f) => f.field_name@ == "name"@ && match f.filter {
                    QueryFilterType::Like(p) => p@ == like_pattern_of(old(self).text@),
                    _ => false,
                },
                None => false,
            },
            match q.projection {
                Some(p) => p.meta == QueryProjectionMeta::Inclusive && p.fields@.map_values(
                    |f: &str| f@,
                ) =~= seq!["id"@, "name"@, "type"@],
                None => false,
            },
    {
        self.results.clear();
        self.selected_item = -1;
        QueryInfo::find_ids(self.text.as_str(), self.search_type)
    }

    /// Second half of a search commit: installs the fetched list, or leaves
    /// the cleared list as it is when the query failed — a failure is not
    /// fatal to the pane.
    pub fn finish_query(&mut self, found: Result<Vec<SearchResults>, MHWQueryError>)
        ensures
            *final(self) == (SearchState { results: final(self).results, ..*old(self) }),
            match found {
                Ok(v) => final(self).results == v,
                Err(_) => final(self).results == old(self).results,
            },
    {
        match found {
            Ok(v) => {
                self.results = v;
            },
            Err(_) => {},
        }
    }

    /// The exact-id detail query for the current selection, or `None` when
    /// no row is validly selected: selecting while the index is -1 or out of
    /// range resolves to "display nothing", never an out-of-range fault.
    pub fn selection_query(&self) -> (r: Option<QueryInfo>)
        ensures
            match r {
                Some(q) => 0 <= self.selected_item < self.results@.len() && q.category
                    == self.search_type && q.projection is None && (match q.filter {
                    Some(f) => f.field_name@ == "id"@ && (match f.filter {
                        QueryFilterType::Exact(v) => v@ == dec_digits(
                            self.results@[self.selected_item as int].id as nat,
                        ),
                        _ => false,
                    }),
                    None => false,
                }),
                None => !(0 <= self.selected_item < self.results@.len()),
            },
    {
        proof {
            reveal_strlit("id");
        }
        if self.selected_item < 0 {
            return None;
        }
        let idx = self.selected_item as usize;
        if idx >= self.results.len() {
            return None;
        }
        let id_string = u32_to_dec(self.results[idx].id);
        let filter = QueryFilter::new("id".to_owned(), QueryFilterType::Exact(id_string));
        Some(QueryInfo::find_category(self.search_type).with_filter(filter))
    }
}

/// The record a detail fetch settles on: the first of the fetched list, or
/// nothing when the list is empty or the fetch failed.
pub fn first_entry<T>(found: Result<Vec<T>, MHWQueryError>) -> (r: Option<T>)
    ensures
        match found {
            Ok(v) => if v@.len() > 0 {
                r == Some(v@[0])
            } else {
                r is None
            },
            Err(_) => r is None,
        },
{
    match found {
        Ok(v) => {
            let mut v = v;
            if v.len() > 0 {
                Some(v.remove(0))
            } else {
                None
            }
        },
        Err(_) => None,
    }
}

} // verus!
