use mhw_companion::query::MHWQueryError;
use mhw_companion::query::QueryProjection;
use mhw_companion::query::QueryProjectionMeta;
use mhw_companion::query::QueryFilter;
use mhw_companion::query::QueryFilterType;
use mhw_companion::query::QueryInfo;
use mhw_companion::search::SearchCategory;

fn like_pattern(q: &QueryInfo) -> String {
    match &q.filter {
        Some(f) => match &f.filter {
            QueryFilterType::Like(p) => p.clone(),
            other => panic!("expected a Like filter, got {:?}", other),
        },
        None => panic!("expected a filter"),
    }
}

#[test]
fn find_ids_anchors_plain_text() {
    let q = QueryInfo::find_ids("behemoth", SearchCategory::Armor);
    assert_eq!(like_pattern(&q), "%behemoth%");
}

#[test]
fn find_ids_does_not_double_wildcards() {
    let q = QueryInfo::find_ids("*hemo*", SearchCategory::Armor);
    assert_eq!(like_pattern(&q), "%hemo%");
}

#[test]
fn find_ids_keeps_existing_anchor() {
    let q = QueryInfo::find_ids("%raptor", SearchCategory::Armor);
    assert_eq!(like_pattern(&q), "%raptor%");
}

#[test]
fn find_ids_empty_text_is_one_wildcard() {
    let q = QueryInfo::find_ids("", SearchCategory::Items);
    assert_eq!(like_pattern(&q), "%");
}

#[test]
fn find_ids_url_shape_for_every_category() {
    for (category, path) in [
        (SearchCategory::Armor, "armor"),
        (SearchCategory::Weapons, "weapons"),
        (SearchCategory::Items, "items"),
    ] {
        let url = QueryInfo::find_ids("behemoth", category).build_url();
        let prefix = format!("https://mhw-db.com/{}?q=", path);
        assert!(url.starts_with(&prefix), "unexpected url {}", url);
        let rest = &url[prefix.len()..];
        let q_end = rest.find("&p=").expect("projection parameter missing");
        let q_json: serde_json::Value = serde_json::from_str(&rest[..q_end]).unwrap();
        let and = q_json
            .get("$and")
            .and_then(|v| v.as_array())
            .expect("q must be an $and conjunction");
        assert_eq!(and.len(), 1);
        let like = and[0]
            .get("name")
            .and_then(|v| v.get("$like"))
            .and_then(|v| v.as_str())
            .expect("filter must be a $like on name");
        assert_eq!(like, "%25behemoth%25");
        assert_eq!(urlencoding::decode(like).unwrap(), "%behemoth%");
        assert_eq!(&rest[q_end..], "&p={\"id\":true,\"name\":true,\"type\":true}");
    }
}

#[test]
fn filter_values_are_percent_encoded_individually() {
    let url = QueryInfo::find_ids("beh emoth", SearchCategory::Armor).build_url();
    assert!(url.contains("%25beh%20emoth%25"), "unexpected url {}", url);
}

#[test]
fn exact_filter_renders_bare_value() {
    let filter = QueryFilter::new("id".to_owned(), QueryFilterType::Exact("123".to_owned()));
    let url = QueryInfo::find_category(SearchCategory::Items).with_filter(filter).build_url();
    assert_eq!(url, "https://mhw-db.com/items?q={\"$and\": [{\"id\":123}] }");
}

#[test]
fn bare_category_query_has_no_parameters() {
    let url = QueryInfo::find_category(SearchCategory::Weapons).build_url();
    assert_eq!(url, "https://mhw-db.com/weapons");
}

#[test]
fn last_filter_wins() {
    let first = QueryFilter::new("id".to_owned(), QueryFilterType::Exact("1".to_owned()));
    let second = QueryFilter::new("id".to_owned(), QueryFilterType::Exact("2".to_owned()));
    let url = QueryInfo::find_category(SearchCategory::Armor)
        .with_filter(first)
        .with_filter(second)
        .build_url();
    assert_eq!(url, "https://mhw-db.com/armor?q={\"$and\": [{\"id\":2}] }");
}

#[test]
fn with_projection_attaches_the_field_list() {
    let proj = QueryProjection {
        meta: QueryProjectionMeta::Exclusive,
        fields: vec!["slots", "assets"],
    };
    let url = QueryInfo::find_category(SearchCategory::Armor).with_projection(proj).build_url();
    assert_eq!(url, "https://mhw-db.com/armor?p={\"slots\":false,\"assets\":false}");
}

#[test]
fn projection_defaults_are_inclusive_and_empty() {
    let proj = QueryProjection::default();
    assert_eq!(proj.meta, QueryProjectionMeta::Inclusive);
    assert!(proj.fields.is_empty());
    let url = QueryInfo::find_category(SearchCategory::Items).with_projection(proj).build_url();
    assert_eq!(url, "https://mhw-db.com/items?p={}");
}

#[test]
fn error_messages_name_their_kind() {
    assert_eq!(
        MHWQueryError::Internal("bad body".to_owned()).message(),
        "Internal error: bad body"
    );
    assert_eq!(MHWQueryError::API("timed out".to_owned()).message(), "API error: timed out");
    assert_eq!(MHWQueryError::Unimplemented.message(), "Unimplemented!");
}
