use search_store::filter::{is_visible, DatasourceViewFilter};
use search_store::memory::MemorySearchStore;
use search_store::model::{Document, Node};
use search_store::options::{page_nodes, resolve_options, NodesSearchOptions};
use search_store::store::{SearchError, SearchStore};
use search_store::text::title_contains;

fn strings(v: &[&str]) -> Vec<String> {
    v.iter().map(|s| s.to_string()).collect()
}

fn doc(id: &str, ds: &str, parents: &[&str], title: &str) -> Document {
    Document::new(id.to_string(), ds.to_string(), title.to_string(), strings(parents))
}

fn filter(ds: &str, paths: &[&str]) -> DatasourceViewFilter {
    DatasourceViewFilter::new(ds.to_string(), strings(paths))
}

fn ids(nodes: &[Node]) -> Vec<String> {
    nodes.iter().map(|n| n.node_id.clone()).collect()
}

fn two_tenants() -> MemorySearchStore {
    let mut store = MemorySearchStore::new();
    store.index_document(&doc("a", "x", &["root", "finance"], "quarterly report")).unwrap();
    store.index_document(&doc("b", "y", &["root", "eng"], "quarterly report")).unwrap();
    store
}

#[test]
fn end_to_end_filters_by_data_source() {
    let store = two_tenants();
    let found = store
        .search_nodes("quarterly".to_string(), vec![filter("x", &["root", "finance"])], None)
        .unwrap();
    assert_eq!(ids(&found), vec!["a".to_string()]);
}

#[test]
fn indexed_document_is_found_as_its_projection() {
    let d = doc("d1", "ds", &["root", "hr"], "holiday plan");
    let mut store = MemorySearchStore::new();
    assert_eq!(store.index_document(&d), Ok(()));
    let found = store.search_nodes("plan".to_string(), vec![filter("ds", &["hr"])], None).unwrap();
    assert_eq!(found.len(), 1);
    assert_eq!(found[0].node_id, "d1");
    assert_eq!(found[0].data_source_id, "ds");
    assert_eq!(found[0].title, "holiday plan");
    assert_eq!(found[0].parents, strings(&["root", "hr"]));
}

#[test]
fn indexing_same_id_replaces_node() {
    let mut store = MemorySearchStore::new();
    store.index_document(&doc("a", "x", &["root"], "first draft")).unwrap();
    store.index_document(&doc("a", "x", &["root"], "final text")).unwrap();
    assert_eq!(store.len(), 1);
    let found = store.search_nodes("final".to_string(), vec![filter("x", &["root"])], None).unwrap();
    assert_eq!(ids(&found), vec!["a".to_string()]);
    let old = store.search_nodes("draft".to_string(), vec![filter("x", &["root"])], None).unwrap();
    assert!(old.is_empty());
}

#[test]
fn unlisted_data_source_is_hidden() {
    let store = two_tenants();
    let found = store.search_nodes("".to_string(), vec![filter("z", &["root"])], None).unwrap();
    assert!(found.is_empty());
}

#[test]
fn disjoint_paths_are_hidden() {
    let store = two_tenants();
    let found = store.search_nodes("quarterly".to_string(), vec![filter("y", &["finance"])], None).unwrap();
    assert!(found.is_empty());
}

#[test]
fn filters_combine_as_alternatives() {
    let store = two_tenants();
    let found = store
        .search_nodes("report".to_string(), vec![filter("x", &["finance"]), filter("y", &["eng"])], None)
        .unwrap();
    assert_eq!(ids(&found), strings(&["a", "b"]));
}

#[test]
fn no_filter_gives_no_results() {
    let store = two_tenants();
    for q in ["", "quarterly", "report", "zzz"] {
        let found = store.search_nodes(q.to_string(), vec![], None).unwrap();
        assert!(found.is_empty());
    }
}

#[test]
fn zero_limit_gives_no_results() {
    let store = two_tenants();
    let opts = NodesSearchOptions::new(Some(0), None);
    let found = store.search_nodes("quarterly".to_string(), vec![filter("x", &["root"])], Some(opts)).unwrap();
    assert!(found.is_empty());
}

#[test]
fn offset_past_matches_gives_no_results() {
    let store = two_tenants();
    let opts = NodesSearchOptions::new(None, Some(1));
    let found = store.search_nodes("quarterly".to_string(), vec![filter("x", &["root"])], Some(opts)).unwrap();
    assert!(found.is_empty());
    let opts = NodesSearchOptions::new(Some(5), Some(usize::MAX));
    let found = store.search_nodes("quarterly".to_string(), vec![filter("x", &["root"])], Some(opts)).unwrap();
    assert!(found.is_empty());
}

#[test]
fn default_options_return_first_ten() {
    let mut store = MemorySearchStore::new();
    for i in 0..15 {
        store.index_document(&doc(&format!("n{}", i), "x", &["root"], "weekly note")).unwrap();
    }
    let found = store.search_nodes("note".to_string(), vec![filter("x", &["root"])], None).unwrap();
    let expected: Vec<String> = (0..10).map(|i| format!("n{}", i)).collect();
    assert_eq!(ids(&found), expected);
    let found = store
        .search_nodes("note".to_string(), vec![filter("x", &["root"])], Some(NodesSearchOptions::default()))
        .unwrap();
    assert_eq!(ids(&found), expected);
    let opts = NodesSearchOptions::new(Some(3), Some(12));
    let found = store.search_nodes("note".to_string(), vec![filter("x", &["root"])], Some(opts)).unwrap();
    assert_eq!(ids(&found), strings(&["n12", "n13", "n14"]));
}

#[test]
fn options_fall_back_to_defaults() {
    assert_eq!(resolve_options(&None), (0, 10));
    assert_eq!(resolve_options(&Some(NodesSearchOptions::new(None, None))), (0, 10));
    assert_eq!(resolve_options(&Some(NodesSearchOptions::new(Some(4), Some(7)))), (7, 4));
    let d = NodesSearchOptions::default();
    assert_eq!((d.limit, d.offset), (Some(10), Some(0)));
}

#[test]
fn page_takes_window() {
    let nodes: Vec<Node> = (0..5)
        .map(|i| Node::new(format!("n{}", i), "x".to_string(), "t".to_string(), vec![]))
        .collect();
    assert_eq!(ids(&page_nodes(&nodes, 1, 2)), strings(&["n1", "n2"]));
    assert_eq!(ids(&page_nodes(&nodes, 4, 10)), strings(&["n4"]));
    assert!(page_nodes(&nodes, 5, 10).is_empty());
    assert!(page_nodes(&nodes, 0, 0).is_empty());
    assert_eq!(ids(&page_nodes(&nodes, 3, usize::MAX)), strings(&["n3", "n4"]));
}

#[test]
fn visibility_needs_source_and_path() {
    let n = Node::new("a".to_string(), "x".to_string(), "t".to_string(), strings(&["root", "finance"]));
    assert!(is_visible(&vec![filter("x", &["finance"])], &n));
    assert!(!is_visible(&vec![filter("x", &["eng"])], &n));
    assert!(!is_visible(&vec![filter("y", &["finance"])], &n));
    assert!(!is_visible(&vec![filter("x", &[])], &n));
    assert!(!is_visible(&vec![], &n));
    assert!(is_visible(&vec![filter("y", &["root"]), filter("x", &["root"])], &n));
}

#[test]
fn title_contains_finds_runs() {
    let t = "quarterly report".to_string();
    assert!(title_contains(&t, &"quarterly".to_string()));
    assert!(title_contains(&t, &"ly rep".to_string()));
    assert!(title_contains(&t, &"".to_string()));
    assert!(!title_contains(&t, &"reports".to_string()));
    assert!(!title_contains(&"ab".to_string(), &"abc".to_string()));
}

#[test]
fn clone_box_keeps_nodes() {
    let store = two_tenants();
    let copy = store.clone_box();
    let found = copy.search_nodes("quarterly".to_string(), vec![filter("y", &["eng"])], None).unwrap();
    assert_eq!(ids(&found), strings(&["b"]));
}

#[test]
fn search_error_kinds_are_distinct() {
    assert_ne!(SearchError::Backend("down".to_string()), SearchError::InvalidResponse);
}

#[test]
fn indexing_twice_keeps_one_node() {
    let d = doc("a", "x", &["root"], "quarterly report");
    let mut store = MemorySearchStore::new();
    store.index_document(&d).unwrap();
    store.index_document(&d).unwrap();
    assert_eq!(store.len(), 1);
}
