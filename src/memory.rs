use vstd::prelude::*;
use crate::model::{Document, Node, NodeView, nodes_view, copy_nodes};
use crate::filter::{DatasourceViewFilter, FilterView, filters_view, visible, is_visible};
use crate::options::{NodesSearchOptions, effective_limit, effective_offset, page, page_nodes, resolve_options};
use crate::text::{contains, title_contains};
use crate::store::{SearchError, SearchStore};

verus! {

/// A node matches a search when its title holds the query text and the
/// filters admit it.
pub open spec fn search_matches(query: Seq<char>, fs: Seq<FilterView>, n: NodeView) -> bool {
    visible(fs, n) && contains(n.title, query)
}

/// The nodes of `s` that match, in the order of `s`.
pub open spec fn select(s: Seq<NodeView>, query: Seq<char>, fs: Seq<FilterView>) -> Seq<NodeView>
    decreases s.len(),
{
    if s.len() == 0 {
        Seq::empty()
    } else {
        let rest = select(s.drop_last(), query, fs);
        if search_matches(query, fs, s.last()) {
            rest.push(s.last())
        } else {
            rest
        }
    }
}

/// What a search over the nodes `s` returns.
pub open spec fn search_result(
    s: Seq<NodeView>,
    query: Seq<char>,
    fs: Seq<FilterView>,
    offset: nat,
    limit: nat,
) -> Seq<NodeView> {
    page(select(s, query, fs), offset, limit)
}

/// No two nodes of `s` share an identifier.
pub open spec fn ids_unique(s: Seq<NodeView>) -> bool {
    forall|i: int, j: int| 0 <= i < s.len() && 0 <= j < s.len() && i != j ==> s[i].node_id != s[j].node_id
}

/// `s` with `n` stored under its identifier: it replaces the node that has
/// that identifier, or is added at the end.
pub open spec fn upsert(s: Seq<NodeView>, n: NodeView) -> Seq<NodeView> {
    if exists|i: int| 0 <= i < s.len() && s[i].node_id == n.node_id {
        s.update(choose|i: int| 0 <= i < s.len() && s[i].node_id == n.node_id, n)
    } else {
        s.push(n)
    }
}

/// Storing a node keeps identifiers unique.
pub proof fn lemma_upsert_unique(s: Seq<NodeView>, n: NodeView)
    requires
        ids_unique(s),
    ensures
        ids_unique(upsert(s, n)),
{
}

/// Every node that `select` keeps matches.
pub proof fn lemma_select_sound(s: Seq<NodeView>, query: Seq<char>, fs: Seq<FilterView>)
    ensures
        forall|i: int| 0 <= i < select(s, query, fs).len() ==> search_matches(query, fs, #[trigger] select(s, query, fs)[i]),
    decreases s.len(),
{
    if s.len() > 0 {
        lemma_select_sound(s.drop_last(), query, fs);
        let rest = select(s.drop_last(), query, fs);
        let r = select(s, query, fs);
        assert forall|i: int| 0 <= i < r.len() implies search_matches(query, fs, #[trigger] r[i]) by {
            if i < rest.len() {
                assert(r[i] == rest[i]);
            }
        }
    }
}

/// Every node on a page of search results matches.
pub proof fn lemma_search_result_sound(
    s: Seq<NodeView>,
    query: Seq<char>,
    fs: Seq<FilterView>,
    offset: nat,
    limit: nat,
)
    ensures
        search_result(s, query, fs, offset, limit).len() <= limit,
        forall|i: int|
            0 <= i < search_result(s, query, fs, offset, limit).len() ==> search_matches(
                query,
                fs,
                #[trigger] search_result(s, query, fs, offset, limit)[i],
            ),
{
    let all = select(s, query, fs);
    let r = search_result(s, query, fs, offset, limit);
    lemma_select_sound(s, query, fs);
    assert forall|i: int| 0 <= i < r.len() implies search_matches(query, fs, #[trigger] r[i]) by {
        assert(r[i] == all[crate::options::min_nat(offset, all.len()) + i]);
    }
}

/// Every node of `s` that matches is kept by `select`.
pub proof fn lemma_select_complete(s: Seq<NodeView>, query: Seq<char>, fs: Seq<FilterView>, i: int)
    requires
        0 <= i < s.len(),
        search_matches(query, fs, s[i]),
    ensures
        select(s, query, fs).contains(s[i]),
    decreases s.len(),
{
    let r = select(s, query, fs);
    if i == s.len() - 1 {
        assert(r[r.len() - 1] == s[i]);
    } else {
        lemma_select_complete(s.drop_last(), query, fs, i);
        let rest = select(s.drop_last(), query, fs);
        let k = choose|k: int| 0 <= k < rest.len() && rest[k] == s.drop_last()[i];
        assert(r[k] == s[i]);
    }
}

/// A node store held in memory: it answers searches with the same rules as a
/// backend does, ranking matches in the order they were first indexed.
pub struct MemorySearchStore {
    nodes: Vec<Node>,
}

impl View for MemorySearchStore {
    type V = Seq<NodeView>;

    closed spec fn view(&self) -> Seq<NodeView> {
        nodes_view(self.nodes@)
    }
}

impl MemorySearchStore {
    /// An empty store.
    pub fn new() -> (r: MemorySearchStore)
        ensures
            r.wf(),
            r@ == Seq::<NodeView>::empty(),
    {
        let r = MemorySearchStore { nodes: Vec::new() };
        assert(r@ =~= Seq::<NodeView>::empty());
        r
    }

    /// The number of nodes stored.
    pub fn len(&self) -> (r: usize)
        ensures
            r == self@.len(),
    {
        self.nodes.len()
    }

    /// Stores `node` under its identifier, replacing the node held there.
    pub fn upsert_node(&mut self, node: Node)
        requires
            old(self).wf(),
        ensures
            final(self).wf(),
            final(self)@ == upsert(old(self)@, node@),
    {
        proof {
            lemma_upsert_unique(self@, node@);
        }
        let ghost s = self@;
        let mut i: usize = 0;
        while i < self.nodes.len()
            invariant
                s == self@,
                s == old(self)@,
                i <= s.len(),
                s.len() == self.nodes@.len(),
                ids_unique(s),
                forall|k: int| 0 <= k < i ==> #[trigger] s[k].node_id != node@.node_id,
            decreases s.len() - i,
        {
            if self.nodes[i].node_id == node.node_id {
                assert(s[i as int] == self.nodes@[i as int]@);
                assert(s[i as int].node_id == node@.node_id);
                let ghost c = choose|c: int| 0 <= c < s.len() && s[c].node_id == node@.node_id;
                assert(c == i);
                self.nodes.set(i, node);
                assert(self@ =~= upsert(s, node@));
                return;
            }
            i = i + 1;
        }
        self.nodes.push(node);
        assert(self@ =~= upsert(s, node@));
    }

    /// Stores the node of `document`, replacing the one of the same identifier.
    pub fn index(&mut self, document: &Document)
        requires
            old(self).wf(),
        ensures
            final(self).wf(),
            final(self)@ == upsert(old(self)@, document@.projection()),
    {
        self.upsert_node(Node::from_document(document));
    }

    /// A store that holds the same nodes.
    pub fn copy(&self) -> (r: MemorySearchStore)
        requires
            self.wf(),
        ensures
            r.wf(),
            r@ == self@,
    {
        MemorySearchStore { nodes: copy_nodes(&self.nodes) }
    }

    /// The nodes that match `query` and `filter`, paged by `options`.
    pub fn search(&self, query: &String, filter: &Vec<DatasourceViewFilter>, options: &Option<NodesSearchOptions>) -> (r: Vec<Node>)
        ensures
            nodes_view(r@) == search_result(
                self@,
                query@,
                filters_view(filter@),
                effective_offset(*options),
                effective_limit(*options),
            ),
    {
        let ghost fs = filters_view(filter@);
        let ghost s = self@;
        let mut found: Vec<Node> = Vec::new();
        let mut i: usize = 0;
        while i < self.nodes.len()
            invariant
                s == self@,
                fs == filters_view(filter@),
                i <= s.len(),
                s.len() == self.nodes@.len(),
                nodes_view(found@) == select(s.subrange(0, i as int), query@, fs),
            decreases s.len() - i,
        {
            let ghost before = found@;
            assert(s.subrange(0, i + 1).drop_last() =~= s.subrange(0, i as int));
            assert(s.subrange(0, i + 1).last() == self.nodes@[i as int]@);
            if is_visible(filter, &self.nodes[i]) && title_contains(&self.nodes[i].title, query) {
                found.push(self.nodes[i].copy());
                assert(nodes_view(found@) =~= nodes_view(before).push(self.nodes@[i as int]@));
            }
            i = i + 1;
        }
        assert(s.subrange(0, s.len() as int) =~= s);
        let (offset, limit) = resolve_options(options);
        page_nodes(&found, offset, limit)
    }
}

impl SearchStore for MemorySearchStore {
    /// No two nodes share an identifier.
    open spec fn wf(&self) -> bool {
        ids_unique(self@)
    }

    fn search_nodes(
        &self,
        query: String,
        filter: Vec<DatasourceViewFilter>,
        options: Option<NodesSearchOptions>,
    ) -> (r: Result<Vec<Node>, SearchError>)
        ensures
            r matches Ok(v) && nodes_view(v@) == search_result(
                self@,
                query@,
                filters_view(filter@),
                effective_offset(options),
                effective_limit(options),
            ),
    {
        let r = self.search(&query, &filter, &options);
        proof {
            let fs = filters_view(filter@);
            lemma_search_result_sound(self@, query@, fs, effective_offset(options), effective_limit(options));
            assert(nodes_view(r@).len() == r@.len());
            assert forall|i: int| 0 <= i < r@.len() implies visible(fs, #[trigger] r@[i]@) by {
                assert(nodes_view(r@)[i] == r@[i]@);
            }
        }
        Ok(r)
    }

    fn index_document(&mut self, document: &Document) -> (r: Result<(), SearchError>)
        ensures
            final(self)@ == upsert(old(self)@, document@.projection()),
    {
        self.index(document);
        Ok(())
    }

    fn clone_box(&self) -> (r: Self)
        ensures
            r@ == self@,
    {
        self.copy()
    }
}

} // verus!
