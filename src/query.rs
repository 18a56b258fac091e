use vstd::prelude::*;
use vstd::string::*;
use crate::model::{Document, strings_view};
use crate::filter::{DatasourceViewFilter, FilterView, filters_view};
use crate::options::{NodesSearchOptions, effective_limit, effective_offset, resolve_options};

verus! {

/// The index that holds the nodes.
pub const NODES_INDEX_NAME: &'static str = "core.data_sources_nodes";

/// The time an index request may take at the backend, in milliseconds.
pub const INDEX_TIMEOUT_MS: u64 = 200;

/// The lower-case hexadecimal digit of `d`, for `d < 16`.
pub open spec fn hex_digit(d: u32) -> char {
    seq!['0', '1', '2', '3', '4', '5', '6', '7', '8', '9', 'a', 'b', 'c', 'd', 'e', 'f'][d as int]
}

/// How one character is written inside a JSON string: quote and backslash
/// behind a backslash, five control characters by their short escapes, the
/// other characters below 0x20 as `\u00xx`, and every other character as is.
pub open spec fn escape_char(c: char) -> Seq<char> {
    if c == '"' {
        seq!['\\', '"']
    } else if c == '\\' {
        seq!['\\', '\\']
    } else if c == '\u{8}' {
        seq!['\\', 'b']
    } else if c == '\t' {
        seq!['\\', 't']
    } else if c == '\n' {
        seq!['\\', 'n']
    } else if c == '\u{c}' {
        seq!['\\', 'f']
    } else if c == '\r' {
        seq!['\\', 'r']
    } else if (c as u32) < 0x20 {
        seq!['\\', 'u', '0', '0', hex_digit((c as u32) / 16), hex_digit((c as u32) % 16)]
    } else {
        seq![c]
    }
}

/// The characters of `s`, each escaped.
pub open spec fn escaped(s: Seq<char>) -> Seq<char>
    decreases s.len(),
{
    if s.len() == 0 {
        Seq::empty()
    } else {
        escaped(s.drop_last()) + escape_char(s.last())
    }
}

/// The JSON text of a string value: the escaped characters between quotes.
pub open spec fn json_string(s: Seq<char>) -> Seq<char> {
    seq!['"'] + escaped(s) + seq!['"']
}

/// Relies on serde_json's `Display` for `Value::String`: the compact JSON
/// text of a string, quoted and escaped byte by byte with its escape table
/// (only ASCII is escaped, so the characters map one by one).
#[verifier::external_body]
fn json_quote(s: &str) -> (r: String)
    ensures
        r@ == json_string(s@),
{
    serde_json::Value::String(s.to_string()).to_string()
}

/// The items of `items` separated by commas.
pub open spec fn joined(items: Seq<Seq<char>>) -> Seq<char>
    decreases items.len(),
{
    if items.len() == 0 {
        Seq::empty()
    } else if items.len() == 1 {
        items[0]
    } else {
        joined(items.drop_last()) + ","@ + items.last()
    }
}

/// A JSON array whose elements are the JSON texts `items`.
pub open spec fn json_array(items: Seq<Seq<char>>) -> Seq<char> {
    "["@ + joined(items) + "]"@
}

/// The clause that admits the nodes of one data source whose ancestry meets
/// the given paths, from the JSON texts of the data source and of the paths.
pub open spec fn clause_text(data_source_json: Seq<char>, paths_json: Seq<Seq<char>>) -> Seq<char> {
    "{\"bool\":{\"must\":[{\"term\":{\"data_source_id\":"@ + data_source_json + "}},{\"terms\":{\"parents\":"@
        + json_array(paths_json) + "}}]}}"@
}

/// The search body: the title must match the query, and at least one of the
/// clauses must hold. With no clause nothing can match.
pub open spec fn search_body_text(query_json: Seq<char>, clauses: Seq<Seq<char>>) -> Seq<char> {
    "{\"query\":{\"bool\":{\"must\":{\"match\":{\"title.edge\":"@ + query_json + "}},\"should\":"@
        + json_array(clauses) + ",\"minimum_should_match\":1}}}"@
}

/// The JSON texts of a list of strings.
pub open spec fn json_strings(v: Seq<Seq<char>>) -> Seq<Seq<char>> {
    v.map_values(|s: Seq<char>| json_string(s))
}

/// The clause of one filter.
pub open spec fn filter_clause(f: FilterView) -> Seq<char> {
    clause_text(json_string(f.data_source_id), json_strings(f.view_filter))
}

/// The search body for `query` under the filters `fs`.
pub open spec fn search_body(query: Seq<char>, fs: Seq<FilterView>) -> Seq<char> {
    search_body_text(json_string(query), fs.map_values(|f: FilterView| filter_clause(f)))
}

/// The JSON text of a node, from the JSON texts of its fields.
pub open spec fn node_text(
    id_json: Seq<char>,
    data_source_json: Seq<char>,
    title_json: Seq<char>,
    parents_json: Seq<Seq<char>>,
) -> Seq<char> {
    "{\"node_id\":"@ + id_json + ",\"data_source_id\":"@ + data_source_json + ",\"title\":"@ + title_json
        + ",\"parents\":"@ + json_array(parents_json) + "}"@
}

/// The JSON array of `items`, which are JSON texts.
pub fn render_array(items: &Vec<String>) -> (r: String)
    ensures
        r@ == json_array(strings_view(items@)),
{
    let ghost v = strings_view(items@);
    let mut out = String::new();
    let mut i: usize = 0;
    while i < items.len()
        invariant
            v == strings_view(items@),
            i <= v.len(),
            out@ == joined(v.subrange(0, i as int)),
        decreases v.len() - i,
    {
        if i > 0 {
            out.append(",");
        }
        out.append(items[i].as_str());
        proof {
            let next = v.subrange(0, i + 1);
            assert(next.drop_last() =~= v.subrange(0, i as int));
            if i == 0 {
                assert(joined(v.subrange(0, 0)) =~= Seq::<char>::empty());
                assert(out@ =~= next[0]);
            }
        }
        i = i + 1;
    }
    assert(v.subrange(0, v.len() as int) =~= v);
    let mut r = String::new();
    r.append("[");
    r.append(out.as_str());
    r.append("]");
    r
}

/// The JSON texts of `v`, in order.
fn quote_all(v: &Vec<String>) -> (r: Vec<String>)
    ensures
        strings_view(r@) == json_strings(strings_view(v@)),
{
    let mut r: Vec<String> = Vec::new();
    let mut i: usize = 0;
    while i < v.len()
        invariant
            i <= v@.len(),
            r@.len() == i,
            forall|k: int| 0 <= k < i ==> #[trigger] r@[k]@ == json_string(v@[k]@),
        decreases v@.len() - i,
    {
        r.push(json_quote(v[i].as_str()));
        i = i + 1;
    }
    assert(strings_view(r@) =~= json_strings(strings_view(v@)));
    r
}

/// The clause of one data source, from the JSON texts of its identifier and
/// of its paths.
pub fn render_clause(data_source_json: &String, paths_json: &Vec<String>) -> (r: String)
    ensures
        r@ == clause_text(data_source_json@, strings_view(paths_json@)),
{
    let mut r = String::new();
    r.append("{\"bool\":{\"must\":[{\"term\":{\"data_source_id\":");
    r.append(data_source_json.as_str());
    r.append("}},{\"terms\":{\"parents\":");
    let paths = render_array(paths_json);
    r.append(paths.as_str());
    r.append("}}]}}");
    r
}

/// The search body, from the JSON text of the query and the clauses.
pub fn render_search_body(query_json: &String, clauses: &Vec<String>) -> (r: String)
    ensures
        r@ == search_body_text(query_json@, strings_view(clauses@)),
{
    let mut r = String::new();
    r.append("{\"query\":{\"bool\":{\"must\":{\"match\":{\"title.edge\":");
    r.append(query_json.as_str());
    r.append("}},\"should\":");
    let should = render_array(clauses);
    r.append(should.as_str());
    r.append(",\"minimum_should_match\":1}}}");
    r
}

/// The JSON text of a node, from the JSON texts of its fields.
pub fn render_node(id_json: &String, data_source_json: &String, title_json: &String, parents_json: &Vec<String>) -> (r: String)
    ensures
        r@ == node_text(id_json@, data_source_json@, title_json@, strings_view(parents_json@)),
{
    let mut r = String::new();
    r.append("{\"node_id\":");
    r.append(id_json.as_str());
    r.append(",\"data_source_id\":");
    r.append(data_source_json.as_str());
    r.append(",\"title\":");
    r.append(title_json.as_str());
    r.append(",\"parents\":");
    let parents = render_array(parents_json);
    r.append(parents.as_str());
    r.append("}");
    r
}

/// A search to send to the backend: the body, and which window of the
/// ranked hits to return.
pub struct SearchRequest {
    pub body: String,
    pub from: usize,
    pub size: usize,
}

/// Builds the search for `query` under `filter`, paged by `options`. Each
/// filter becomes a clause that needs both its data source and one of its
/// paths; the clauses are alternatives, and one must hold.
pub fn build_search_request(
    query: &String,
    filter: &Vec<DatasourceViewFilter>,
    options: &Option<NodesSearchOptions>,
) -> (r: SearchRequest)
    ensures
        r.body@ == search_body(query@, filters_view(filter@)),
        r.from == effective_offset(*options),
        r.size == effective_limit(*options),
{
    let ghost fs = filters_view(filter@);
    let mut clauses: Vec<String> = Vec::new();
    let mut i: usize = 0;
    while i < filter.len()
        invariant
            fs == filters_view(filter@),
            i <= fs.len(),
            clauses@.len() == i,
            forall|k: int| 0 <= k < i ==> #[trigger] clauses@[k]@ == filter_clause(fs[k]),
        decreases fs.len() - i,
    {
        let ds = json_quote(filter[i].data_source_id.as_str());
        let paths = quote_all(&filter[i].view_filter);
        clauses.push(render_clause(&ds, &paths));
        i = i + 1;
    }
    let q = json_quote(query.as_str());
    assert(strings_view(clauses@) =~= fs.map_values(|f: FilterView| filter_clause(f)));
    let body = render_search_body(&q, &clauses);
    let (from, size) = resolve_options(options);
    SearchRequest { body, from, size }
}

/// The JSON text that indexing stores for `document`.
pub open spec fn document_body(document: crate::model::DocumentView) -> Seq<char> {
    node_text(
        json_string(document.document_id),
        json_string(document.data_source_id),
        json_string(document.title),
        json_strings(document.parents),
    )
}

/// An index request: the identifier the node is stored under, its JSON text,
/// and the time the backend may take.
pub struct IndexRequest {
    pub id: String,
    pub body: String,
    pub timeout_ms: u64,
}

/// Builds the upsert of `document`'s node, keyed by the document identifier.
pub fn build_index_request(document: &Document) -> (r: IndexRequest)
    ensures
        r.id@ == document@.document_id,
        r.body@ == document_body(document@),
        r.timeout_ms == INDEX_TIMEOUT_MS,
{
    let id = json_quote(document.document_id.as_str());
    let ds = json_quote(document.data_source_id.as_str());
    let title = json_quote(document.title.as_str());
    let parents = quote_all(&document.parents);
    let body = render_node(&id, &ds, &title, &parents);
    IndexRequest { id: document.document_id.clone(), body, timeout_ms: INDEX_TIMEOUT_MS }
}

} // verus!
