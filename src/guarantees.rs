use vstd::prelude::*;
use crate::model::{DocumentView, NodeView};
use crate::filter::{FilterView, admits, intersects, visible};
use crate::options::{DEFAULT_LIMIT, effective_limit, effective_offset};
use crate::memory::{
    lemma_search_result_sound, lemma_select_complete, search_matches, search_result, select, upsert,
};
use crate::text::contains;

verus! {

/// A document that was indexed is found by a search whose filters admit its
/// node and whose text occurs in its title: it is among the matches, and on
/// the first page when the limit covers all matches.
pub proof fn law_indexed_document_found(s: Seq<NodeView>, d: DocumentView, query: Seq<char>, fs: Seq<FilterView>)
    requires
        visible(fs, d.projection()),
        contains(d.title, query),
    ensures
        select(upsert(s, d.projection()), query, fs).contains(d.projection()),
        forall|limit: nat|
            limit >= select(upsert(s, d.projection()), query, fs).len() ==> #[trigger] search_result(
                upsert(s, d.projection()),
                query,
                fs,
                0,
                limit,
            ).contains(d.projection()),
{
    let n = d.projection();
    let t = upsert(s, n);
    let i = if exists|i: int| 0 <= i < s.len() && s[i].node_id == n.node_id {
        choose|i: int| 0 <= i < s.len() && s[i].node_id == n.node_id
    } else {
        s.len() as int
    };
    assert(t[i] == n);
    lemma_select_complete(t, query, fs, i);
    let all = select(t, query, fs);
    assert forall|limit: nat| limit >= all.len() implies #[trigger] search_result(t, query, fs, 0, limit).contains(n) by {
        assert(search_result(t, query, fs, 0, limit) =~= all);
    }
}

/// A node of a data source that no filter names never appears in results,
/// whatever the query.
pub proof fn law_unlisted_source_hidden(
    s: Seq<NodeView>,
    query: Seq<char>,
    fs: Seq<FilterView>,
    offset: nat,
    limit: nat,
    n: NodeView,
)
    requires
        forall|k: int| 0 <= k < fs.len() ==> #[trigger] fs[k].data_source_id != n.data_source_id,
    ensures
        !search_result(s, query, fs, offset, limit).contains(n),
{
    lemma_search_result_sound(s, query, fs, offset, limit);
    if visible(fs, n) {
        let k = choose|k: int| 0 <= k < fs.len() && admits(#[trigger] fs[k], n);
        assert(fs[k].data_source_id != n.data_source_id);
    }
}

/// Under a single filter, a node of that data source whose ancestry misses
/// every allowed path never appears in results.
pub proof fn law_disjoint_paths_hidden(
    s: Seq<NodeView>,
    query: Seq<char>,
    f: FilterView,
    offset: nat,
    limit: nat,
    n: NodeView,
)
    requires
        n.data_source_id == f.data_source_id,
        !intersects(n.parents, f.view_filter),
    ensures
        !search_result(s, query, seq![f], offset, limit).contains(n),
{
    lemma_search_result_sound(s, query, seq![f], offset, limit);
    if visible(seq![f], n) {
        let k = choose|k: int| 0 <= k < 1 && admits(#[trigger] seq![f][k], n);
        assert(seq![f][k] == f);
    }
}

/// With no filter, a search returns nothing, whatever the query.
pub proof fn law_no_filter_no_results(s: Seq<NodeView>, query: Seq<char>, offset: nat, limit: nat)
    ensures
        search_result(s, query, Seq::<FilterView>::empty(), offset, limit) == Seq::<NodeView>::empty(),
{
    lemma_search_result_sound(s, query, Seq::<FilterView>::empty(), offset, limit);
    let r = search_result(s, query, Seq::<FilterView>::empty(), offset, limit);
    if r.len() > 0 {
        assert(search_matches(query, Seq::<FilterView>::empty(), r[0]));
    }
    assert(r =~= Seq::<NodeView>::empty());
}

/// A limit of zero gives no results; an offset at or past the number of
/// matches gives no results; without options at most the default number of
/// results is returned, from the first match on.
pub proof fn law_paging(s: Seq<NodeView>, query: Seq<char>, fs: Seq<FilterView>, offset: nat, limit: nat)
    ensures
        search_result(s, query, fs, offset, 0) == Seq::<NodeView>::empty(),
        offset >= select(s, query, fs).len() ==> search_result(s, query, fs, offset, limit) == Seq::<
            NodeView,
        >::empty(),
        search_result(s, query, fs, effective_offset(None), effective_limit(None)).len() <= DEFAULT_LIMIT,
        search_result(s, query, fs, effective_offset(None), effective_limit(None)) == select(
            s,
            query,
            fs,
        ).take(search_result(s, query, fs, effective_offset(None), effective_limit(None)).len() as int),
{
    assert(search_result(s, query, fs, offset, 0) =~= Seq::<NodeView>::empty());
    if offset >= select(s, query, fs).len() {
        assert(search_result(s, query, fs, offset, limit) =~= Seq::<NodeView>::empty());
    }
    let r = search_result(s, query, fs, effective_offset(None), effective_limit(None));
    assert(r =~= select(s, query, fs).take(r.len() as int));
}

} // verus!
