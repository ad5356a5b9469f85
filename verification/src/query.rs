//! The query builder: filter and projection values, and their serialization
//! into the remote API's JSON-in-query-string URL convention.
//!
//! The remote filter language is a JSON object embedded as the `q` query
//! parameter (`{"field":{"$like":"pattern"}}`), with a projection object as
//! the `p` parameter; filter values are percent-encoded individually.  The
//! builder isolates this convention so no caller constructs query strings by
//! hand.

use crate::search::category_label;
use crate::search::SearchCategory;
use crate::text::to_char_vec;
use crate::text::push_char;
use vstd::prelude::*;
use vstd::string::StrSliceExecFns;
use vstd::string::StringExecFns;

verus! {

/// What `urlencoding::encode` returns for a string: the percent-encoding of
/// its UTF-8 bytes.  The result depends on the characters alone.
pub uninterp spec fn percent_encoded(s: Seq<char>) -> Seq<char>;

/// Relies on `urlencoding::encode`: percent-encodes every byte except ASCII
/// alphanumerics and `-`, `_`, `.`, `~`; an empty string stays empty.
#[verifier::external_body]
fn percent_encode(s: &str) -> (r: String)
    ensures
        r@ == percent_encoded(s@),
        s@.len() == 0 ==> r@.len() == 0,
{
    urlencoding::encode(s).into_owned()
}

/// A single field-match condition: exact, or fuzzy with `%` wildcards.
#[derive(Debug)]
pub enum QueryFilterType {
    Exact(String),
    Like(String),
}

/// The JSON rendering of one filter value: an exact match renders as the
/// bare percent-encoded value, a fuzzy match as a `$like` operator object.
pub open spec fn filter_type_json(t: QueryFilterType) -> Seq<char> {
    match t {
        QueryFilterType::Exact(v) => percent_encoded(v@),
        QueryFilterType::Like(v) => "{\"$like\":\""@ + percent_encoded(v@) + "\"}"@,
    }
}

/// A filter condition attached to one field.
#[derive(Debug)]
pub struct QueryFilter {
    pub field_name: String,
    pub filter: QueryFilterType,
}

/// The JSON rendering of a filter: `{"<field>":<value>}`.
pub open spec fn filter_json(f: QueryFilter) -> Seq<char> {
    "{\""@ + f.field_name@ + "\":"@ + filter_type_json(f.filter) + "}"@
}

impl QueryFilter {
    pub fn new(field: String, filter: QueryFilterType) -> (r: Self)
        ensures
            r.field_name == field,
            r.filter == filter,
    {
        QueryFilter { field_name: field, filter }
    }

    /// Renders this filter as the API's JSON object.
    pub fn to_json(&self) -> (r: String)
        ensures
            r@ == filter_json(*self),
    {
        proof {
            reveal_strlit("{\"");
            reveal_strlit("\":");
            reveal_strlit("{\"$like\":\"");
            reveal_strlit("\"}");
            reveal_strlit("}");
        }
        let mut s = String::from_str("{\"");
        s.append(self.field_name.as_str());
        s.append("\":");
        match &self.filter {
            QueryFilterType::Exact(v) => {
                let enc = percent_encode(v.as_str());
                s.append(enc.as_str());
            },
            QueryFilterType::Like(v) => {
                s.append("{\"$like\":\"");
                let enc = percent_encode(v.as_str());
                s.append(enc.as_str());
                s.append("\"}");
            },
        }
        s.append("}");
        proof {
            assert(s@ =~= filter_json(*self));
        }
        s
    }
}

/// Whether the listed fields are the ones to return or the ones to omit.
#[derive(Clone, Copy, PartialEq, Eq, Structural, Debug)]
pub enum QueryProjectionMeta {
    Inclusive,
    Exclusive,
}

impl Default for QueryProjectionMeta {
    fn default() -> (r: Self)
        ensures
            r == QueryProjectionMeta::Inclusive,
    {
        QueryProjectionMeta::Inclusive
    }
}

/// The boolean token every projected field is paired with.
pub open spec fn meta_token(m: QueryProjectionMeta) -> Seq<char> {
    match m {
        QueryProjectionMeta::Inclusive => "true"@,
        QueryProjectionMeta::Exclusive => "false"@,
    }
}

/// The comma-separated body of a projection object: each field name quoted
/// and paired with the shared boolean token.
pub open spec fn fields_json(fs: Seq<Seq<char>>, tok: Seq<char>) -> Seq<char>
    decreases fs.len(),
{
    if fs.len() == 0 {
        Seq::<char>::empty()
    } else if fs.len() == 1 {
        "\""@ + fs.first() + "\":"@ + tok
    } else {
        "\""@ + fs.first() + "\":"@ + tok + ","@ + fields_json(fs.drop_first(), tok)
    }
}

/// The subset of fields a query should return, all sharing one
/// inclusion/exclusion mode.
#[derive(Debug)]
pub struct QueryProjection {
    pub meta: QueryProjectionMeta,
    pub fields: Vec<&'static str>,
}

/// The JSON rendering of a projection: `{"<f1>":<b>,"<f2>":<b>,...}`.
pub open spec fn projection_json(p: QueryProjection) -> Seq<char> {
    "{"@ + fields_json(p.fields@.map_values(|f: &str| f@), meta_token(p.meta)) + "}"@
}

fn push_fields_json(s: &mut String, fields: &Vec<&'static str>, i: usize, tok: &'static str)
    requires
        i <= fields@.len(),
    ensures
        final(s)@ == old(s)@ + fields_json(
            fields@.map_values(|f: &str| f@).skip(i as int),
            tok@,
        ),
    decreases fields@.len() - i,
{
    proof {
        reveal_strlit("\"");
        reveal_strlit("\":");
        reveal_strlit(",");
    }
    let ghost m = fields@.map_values(|f: &str| f@);
    if i >= fields.len() {
        proof {
            assert(m.skip(i as int) =~= Seq::<Seq<char>>::empty());
            assert(final(s)@ =~= old(s)@ + fields_json(m.skip(i as int), tok@));
        }
        return ;
    }
    s.append("\"");
    s.append(fields[i]);
    s.append("\":");
    s.append(tok);
    if i + 1 < fields.len() {
        s.append(",");
    }
    push_fields_json(s, fields, i + 1, tok);
    proof {
        assert(m.skip(i as int).first() == m[i as int]);
        assert(m.skip(i as int).drop_first() =~= m.skip(i as int + 1));
        assert(final(s)@ =~= old(s)@ + fields_json(m.skip(i as int), tok@));
    }
}

impl QueryProjection {
    /// Renders this projection as the API's JSON object.
    pub fn to_json(&self) -> (r: String)
        ensures
            r@ == projection_json(*self),
    {
        proof {
            reveal_strlit("{");
            reveal_strlit("}");
            reveal_strlit("true");
            reveal_strlit("false");
        }
        let mut s = String::from_str("{");
        let tok: &'static str = match self.meta {
            QueryProjectionMeta::Inclusive => "true",
            QueryProjectionMeta::Exclusive => "false",
        };
        push_fields_json(&mut s, &self.fields, 0, tok);
        s.append("}");
        proof {
            assert(self.fields@.map_values(|f: &str| f@).skip(0) =~= self.fields@.map_values(
                |f: &str| f@,
            ));
            assert(s@ =~= projection_json(*self));
        }
        s
    }
}

impl Default for QueryProjection {
    fn default() -> (r: Self)
        ensures
            r.meta == QueryProjectionMeta::Inclusive,
            r.fields@ =~= Seq::<&'static str>::empty(),
    {
        QueryProjection { meta: QueryProjectionMeta::Inclusive, fields: Vec::new() }
    }
}

/// The fuzzy pattern `find_ids` sends for a search text: every `*` becomes
/// the API wildcard `%`, and the pattern is anchored with a leading and a
/// trailing wildcard unless one is already present.
pub open spec fn like_pattern_of(t: Seq<char>) -> Seq<char> {
    let m = t.map_values(|c: char| if c == '*' { '%' } else { c });
    let p = if m.len() == 0 || m[0] != '%' {
        seq!['%'] + m
    } else {
        m
    };
    if p[p.len() - 1] != '%' {
        p + seq!['%']
    } else {
        p
    }
}

/// A request descriptor: the target category plus an optional filter and an
/// optional projection.
#[derive(Debug)]
pub struct QueryInfo {
    pub category: SearchCategory,
    pub filter: Option<QueryFilter>,
    pub projection: Option<QueryProjection>,
}

/// The URL a query serializes to: the category's resource path, a `q`
/// parameter wrapping the filter in a `$and` conjunction, and a `p`
/// parameter holding the projection; exactly one of `?` or `&` prefixes the
/// projection depending on whether a filter was present.
pub open spec fn url_of(q: QueryInfo) -> Seq<char> {
    let base = "https://mhw-db.com/"@ + category_label(q.category);
    let with_filter = match q.filter {
        Some(f) => base + "?q={\"$and\": ["@ + filter_json(f) + "] }"@,
        None => base,
    };
    match q.projection {
        Some(p) => with_filter + (if q.filter is Some {
            "&"@
        } else {
            "?"@
        }) + "p="@ + projection_json(p),
        None => with_filter,
    }
}

impl QueryInfo {
    /// A narrow name search: a fuzzy `name` filter built from `text` with a
    /// projection limited to the id, name and type fields, intended to
    /// populate a selection list rather than fetch full detail.
    pub fn find_ids(text: &str, category: SearchCategory) -> (r: QueryInfo)
        ensures
            r.category == category,
            match r.filter {
                Some(f) => f.field_name@ == "name"@ && match f.filter {
                    QueryFilterType::Like(p) => p@ == like_pattern_of(text@),
                    _ => false,
                },
                None => false,
            },
            match r.projection {
                Some(p) => p.meta == QueryProjectionMeta::Inclusive && p.fields@.map_values(
                    |f: &str| f@,
                ) =~= seq!["id"@, "name"@, "type"@],
                None => false,
            },
    {
        proof {
            reveal_strlit("%");
        }
        let cs = to_char_vec(text);
        let ghost m = text@.map_values(|c: char| if c == '*' { '%' } else { c });
        let mut pat = String::new();
        let mut i: usize = 0;
        while i < cs.len()
            invariant
                i <= cs@.len(),
                cs@ == text@,
                m == text@.map_values(|c: char| if c == '*' { '%' } else { c }),
                pat@ =~= m.take(i as int),
            decreases cs@.len() - i,
        {
            let c = cs[i];
            if c == '*' {
                push_char(&mut pat, '%');
            } else {
                push_char(&mut pat, c);
            }
            i = i + 1;
            proof {
                assert(pat@ =~= m.take(i as int));
            }
        }
        proof {
            assert(m.take(cs@.len() as int) =~= m);
        }
        let needs_prefix = if cs.len() == 0 {
            true
        } else {
            let c0 = cs[0];
            !(c0 == '%' || c0 == '*')
        };
        let mut anchored = if needs_prefix {
            let mut s = String::from_str("%");
            s.append(pat.as_str());
            s
        } else {
            pat
        };
        let alen = anchored.unicode_len();
        let last = anchored.as_str().get_char(alen - 1);
        if last != '%' {
            anchored.append("%");
        }
        proof {
            assert(anchored@ =~= like_pattern_of(text@));
        }
        let filter = QueryFilter {
            field_name: String::from_str("name"),
            filter: QueryFilterType::Like(anchored),
        };
        let mut fields: Vec<&'static str> = Vec::new();
        fields.push("id");
        fields.push("name");
        fields.push("type");
        let projection = QueryProjection { meta: QueryProjectionMeta::Inclusive, fields };
        proof {
            reveal_strlit("name");
            assert(projection.fields@.map_values(|f: &str| f@) =~= seq!["id"@, "name"@, "type"@]);
        }
        QueryInfo { category, filter: Some(filter), projection: Some(projection) }
    }

    /// A bare category query, meant to be combined with `with_filter` for an
    /// exact-id detail fetch.
    pub fn find_category(category: SearchCategory) -> (r: QueryInfo)
        ensures
            r.category == category,
            r.filter is None,
            r.projection is None,
    {
        QueryInfo { category, filter: None, projection: None }
    }

    /// Replaces the filter; at most one is retained, last write wins.
    pub fn with_filter(self, filter: QueryFilter) -> (r: QueryInfo)
        ensures
            r.category == self.category,
            r.filter == Some(filter),
            r.projection == self.projection,
    {
        QueryInfo { filter: Some(filter), ..self }
    }

    /// Replaces the projection; at most one is retained, last write wins.
    pub fn with_projection(self, proj: QueryProjection) -> (r: QueryInfo)
        ensures
            r.category == self.category,
            r.filter == self.filter,
            r.projection == Some(proj),
    {
        QueryInfo { projection: Some(proj), ..self }
    }

    /// Serializes this query to the URL it is sent to.
    pub fn build_url(&self) -> (r: String)
        ensures
            r@ == url_of(*self),
    {
        proof {
            reveal_strlit("https://mhw-db.com/");
            reveal_strlit("?q={\"$and\": [");
            reveal_strlit("] }");
            reveal_strlit("&");
            reveal_strlit("?");
            reveal_strlit("p=");
        }
        let mut s = String::from_str("https://mhw-db.com/");
        s.append(self.category.label());
        match &self.filter {
            Some(f) => {
                s.append("?q={\"$and\": [");
                let fj = f.to_json();
                s.append(fj.as_str());
                s.append("] }");
            },
            None => {},
        }
        match &self.projection {
            Some(p) => {
                if self.filter.is_some() {
                    s.append("&");
                } else {
                    s.append("?");
                }
                s.append("p=");
                let pj = p.to_json();
                s.append(pj.as_str());
            },
            None => {},
        }
        proof {
            assert(s@ =~= url_of(*self));
        }
        s
    }
}

/// Law: a query shaped the way `find_ids` builds one — a fuzzy `name`
/// filter for `pattern` and the inclusive id/name/type projection —
/// serializes, for every category, to the category's resource path with a
/// `q` parameter of `{"$and": [{"name":{"$like":"<encoded pattern>"}}] }`
/// and a `p` parameter of `{"id":true,"name":true,"type":true}`.
pub proof fn lemma_find_ids_url(q: QueryInfo, pattern: Seq<char>)
    requires
        match q.filter {
            Some(f) => f.field_name@ == "name"@ && match f.filter {
                QueryFilterType::Like(p) => p@ == pattern,
                _ => false,
            },
            None => false,
        },
        match q.projection {
            Some(p) => p.meta == QueryProjectionMeta::Inclusive && p.fields@.map_values(
                |f: &str| f@,
            ) =~= seq!["id"@, "name"@, "type"@],
            None => false,
        },
    ensures
        url_of(q) =~= "https://mhw-db.com/"@ + category_label(q.category)
            + "?q={\"$and\": [{\"name\":{\"$like\":\""@ + percent_encoded(pattern)
            + "\"}}] }&p={\"id\":true,\"name\":true,\"type\":true}"@,
{
    reveal_strlit("https://mhw-db.com/");
    reveal_strlit("?q={\"$and\": [");
    reveal_strlit("] }");
    reveal_strlit("&");
    reveal_strlit("p=");
    reveal_strlit("{\"");
    reveal_strlit("\":");
    reveal_strlit("{\"$like\":\"");
    reveal_strlit("\"}");
    reveal_strlit("}");
    reveal_strlit("{");
    reveal_strlit("\"");
    reveal_strlit(",");
    reveal_strlit("true");
    reveal_strlit("name");
    reveal_strlit("id");
    reveal_strlit("type");
    reveal_strlit("?q={\"$and\": [{\"name\":{\"$like\":\"");
    reveal_strlit("\"}}] }&p={\"id\":true,\"name\":true,\"type\":true}");
    let fs = seq!["id"@, "name"@, "type"@];
    let tok = "true"@;
    assert(fs.drop_first() =~= seq!["name"@, "type"@]);
    assert(fs.drop_first().drop_first() =~= seq!["type"@]);
    assert(fields_json(seq!["type"@], tok) =~= "\""@ + "type"@ + "\":"@ + tok);
    assert(fields_json(seq!["name"@, "type"@], tok) =~= "\""@ + "name"@ + "\":"@ + tok + ","@
        + fields_json(seq!["type"@], tok));
    assert(fields_json(fs, tok) =~= "\""@ + "id"@ + "\":"@ + tok + ","@ + fields_json(
        seq!["name"@, "type"@],
        tok,
    ));
    let f = q.filter->Some_0;
    let p = q.projection->Some_0;
    assert(p.fields@.map_values(|x: &str| x@) == fs);
    assert(filter_json(f) =~= "{\""@ + "name"@ + "\":"@ + "{\"$like\":\""@ + percent_encoded(
        pattern,
    ) + "\"}"@ + "}"@);
    assert(url_of(q) =~= "https://mhw-db.com/"@ + category_label(q.category)
        + "?q={\"$and\": [{\"name\":{\"$like\":\""@ + percent_encoded(pattern)
        + "\"}}] }&p={\"id\":true,\"name\":true,\"type\":true}"@);
}

/// What a query can fail with: a transport failure reported by the API
/// round-trip, or an internal decode failure.
pub enum MHWQueryError {
    Internal(String),
    API(String),
    Unimplemented,
}

/// The diagnostic line for an error.
pub open spec fn query_error_message(e: MHWQueryError) -> Seq<char> {
    match e {
        MHWQueryError::Unimplemented => "Unimplemented!"@,
        MHWQueryError::Internal(s) => "Internal error: "@ + s@,
        MHWQueryError::API(s) => "API error: "@ + s@,
    }
}

impl MHWQueryError {
    pub fn message(&self) -> (r: String)
        ensures
            r@ == query_error_message(*self),
    {
        proof {
            reveal_strlit("Unimplemented!");
            reveal_strlit("Internal error: ");
            reveal_strlit("API error: ");
        }
        match self {
            MHWQueryError::Unimplemented => String::from_str("Unimplemented!"),
            MHWQueryError::Internal(s) => {
                let mut r = String::from_str("Internal error: ");
                r.append(s.as_str());
                proof {
                    assert(r@ =~= query_error_message(*self));
                }
                r
            },
            MHWQueryError::API(s) => {
                let mut r = String::from_str("API error: ");
                r.append(s.as_str());
                proof {
                    assert(r@ =~= query_error_message(*self));
                }
                r
            },
        }
    }
}

} // verus!
