use mhw_companion::entry_display::EntryDisplayState;
use mhw_companion::items::ItemInfo;
use mhw_companion::query::MHWQueryError;
use mhw_companion::query_filters::get_filter_categories;
use mhw_companion::search::first_entry;
use mhw_companion::search::SearchCategory;
use mhw_companion::search::SearchResults;
use mhw_companion::search::SearchState;

fn two_results() -> Vec<SearchResults> {
    vec![
        SearchResults { id: 17, name: "Rathalos Helm".to_owned() },
        SearchResults { id: 23, name: "Rathalos Mail".to_owned() },
    ]
}

#[test]
fn selecting_past_the_list_is_a_noop() {
    // selecting index 2 out of a 2-item result list resolves to "nothing"
    let mut state = SearchState::default();
    state.results = two_results();
    state.selected_item = 2;
    assert!(state.selection_query().is_none());
}

#[test]
fn selecting_nothing_resolves_to_nothing() {
    let mut state = SearchState::default();
    state.results = two_results();
    state.selected_item = -1;
    assert!(state.selection_query().is_none());
}

#[test]
fn valid_selection_builds_an_exact_id_query() {
    let mut state = SearchState::default();
    state.results = two_results();
    state.selected_item = 1;
    let q = state.selection_query().expect("selection should build a query");
    assert_eq!(q.build_url(), "https://mhw-db.com/armor?q={\"$and\": [{\"id\":23}] }");
}

#[test]
fn starting_a_query_clears_the_pane() {
    let mut state = SearchState::default();
    state.text = "rath".to_owned();
    state.search_type = SearchCategory::Weapons;
    state.results = two_results();
    state.selected_item = 0;
    let q = state.start_query();
    assert_eq!(state.selected_item, -1);
    assert!(state.results.is_empty());
    assert!(q.build_url().starts_with("https://mhw-db.com/weapons?q="));
    assert!(q.build_url().contains("%25rath%25"));
}

#[test]
fn finishing_a_query_installs_results() {
    let mut state = SearchState::default();
    state.finish_query(Ok(two_results()));
    assert_eq!(state.results.len(), 2);
    assert_eq!(state.results[0].id, 17);
}

#[test]
fn a_failed_query_leaves_the_list_empty() {
    let mut state = SearchState::default();
    state.finish_query(Err(MHWQueryError::API("connection refused".to_owned())));
    assert!(state.results.is_empty());
}

#[test]
fn first_entry_takes_the_head_of_the_list() {
    let found: Result<Vec<u32>, MHWQueryError> = Ok(vec![7, 8, 9]);
    assert_eq!(first_entry(found), Some(7));
}

#[test]
fn first_entry_of_an_empty_list_is_nothing() {
    let found: Result<Vec<u32>, MHWQueryError> = Ok(vec![]);
    assert_eq!(first_entry(found), None);
    let failed: Result<Vec<u32>, MHWQueryError> =
        Err(MHWQueryError::Internal("bad schema".to_owned()));
    assert_eq!(first_entry(failed), None);
}

#[test]
fn category_labels_and_indexing() {
    assert_eq!(SearchCategory::Armor.label(), "armor");
    assert_eq!(SearchCategory::Weapons.label(), "weapons");
    assert_eq!(SearchCategory::Items.label(), "items");
    assert_eq!(SearchCategory::MAX.label(), "ERROR");
    assert_eq!(SearchCategory::from_i32(0), Some(SearchCategory::Armor));
    assert_eq!(SearchCategory::from_i32(1), Some(SearchCategory::Weapons));
    assert_eq!(SearchCategory::from_i32(2), Some(SearchCategory::Items));
    assert_eq!(SearchCategory::from_i32(3), Some(SearchCategory::MAX));
    assert_eq!(SearchCategory::from_i32(4), None);
    assert_eq!(SearchCategory::from_i32(-1), None);
    assert_eq!(SearchCategory::default(), SearchCategory::Armor);
}

#[test]
fn default_state_is_blank() {
    let state = SearchState::default();
    assert_eq!(state.selected_item, -1);
    assert!(state.should_draw);
    assert!(state.results.is_empty());
    assert!(state.text.is_empty());
}

#[test]
fn display_titles() {
    assert_eq!(EntryDisplayState::Nothing.title(), "<Nothing Selected>");
    let item = EntryDisplayState::Item(ItemInfo::default());
    assert_eq!(item.title(), "Item Info");
    assert!(matches!(EntryDisplayState::default(), EntryDisplayState::Nothing));
}

#[test]
fn every_category_offers_the_placeholder_filter() {
    for c in [
        SearchCategory::Armor,
        SearchCategory::Weapons,
        SearchCategory::Items,
        SearchCategory::MAX,
    ] {
        assert_eq!(get_filter_categories(&c), vec!["Filter A".to_owned()]);
    }
}
