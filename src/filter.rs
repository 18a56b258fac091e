use vstd::prelude::*;
use crate::model::{Node, NodeView, strings_view};

verus! {

/// One data source a caller may search, with the ancestry paths visible in it.
#[derive(Debug)]
pub struct DatasourceViewFilter {
    pub data_source_id: String,
    pub view_filter: Vec<String>,
}

/// What a filter is, as plain values.
pub ghost struct FilterView {
    pub data_source_id: Seq<char>,
    pub view_filter: Seq<Seq<char>>,
}

impl View for DatasourceViewFilter {
    type V = FilterView;

    open spec fn view(&self) -> FilterView {
        FilterView { data_source_id: self.data_source_id@, view_filter: strings_view(self.view_filter@) }
    }
}

/// The views of a list of filters.
pub open spec fn filters_view(v: Seq<DatasourceViewFilter>) -> Seq<FilterView> {
    v.map_values(|f: DatasourceViewFilter| f@)
}

/// Some entry of `parents` is one of `paths`.
pub open spec fn intersects(parents: Seq<Seq<char>>, paths: Seq<Seq<char>>) -> bool {
    exists|i: int, j: int| 0 <= i < parents.len() && 0 <= j < paths.len() && parents[i] == paths[j]
}

/// A filter admits a node when the node lies in the filter's data source and
/// one of the node's ancestors is among the filter's paths: both must hold.
pub open spec fn admits(f: FilterView, n: NodeView) -> bool {
    f.data_source_id == n.data_source_id && intersects(n.parents, f.view_filter)
}

/// A list of filters admits a node when any one of them does. An empty list
/// admits nothing.
pub open spec fn visible(fs: Seq<FilterView>, n: NodeView) -> bool {
    exists|k: int| 0 <= k < fs.len() && admits(#[trigger] fs[k], n)
}

impl DatasourceViewFilter {
    pub fn new(data_source_id: String, view_filter: Vec<String>) -> (r: DatasourceViewFilter)
        ensures
            r.data_source_id@ == data_source_id@,
            r.view_filter@ == view_filter@,
    {
        DatasourceViewFilter { data_source_id, view_filter }
    }

    /// Whether this filter admits `node`.
    pub fn admits_node(&self, node: &Node) -> (r: bool)
        ensures
            r == admits(self@, node@),
    {
        if self.data_source_id != node.data_source_id {
            return false;
        }
        let mut i: usize = 0;
        while i < node.parents.len()
            invariant
                i <= node.parents@.len(),
                self@.data_source_id == node@.data_source_id,
                forall|a: int, b: int|
                    0 <= a < i && 0 <= b < self.view_filter@.len() ==> node.parents@[a]@ != self.view_filter@[b]@,
            decreases node.parents@.len() - i,
        {
            let mut j: usize = 0;
            while j < self.view_filter.len()
                invariant
                    i < node.parents@.len(),
                    self@.data_source_id == node@.data_source_id,
                    j <= self.view_filter@.len(),
                    forall|b: int| 0 <= b < j ==> node.parents@[i as int]@ != self.view_filter@[b]@,
                decreases self.view_filter@.len() - j,
            {
                if node.parents[i] == self.view_filter[j] {
                    assert(node@.parents[i as int] == self@.view_filter[j as int]);
                    assert(intersects(node@.parents, self@.view_filter));
                    return true;
                }
                j = j + 1;
            }
            i = i + 1;
        }
        proof {
            let ps = strings_view(node.parents@);
            let vs = strings_view(self.view_filter@);
            assert forall|a: int, b: int| 0 <= a < ps.len() && 0 <= b < vs.len() implies ps[a] != vs[b] by {
                assert(node.parents@[a]@ != self.view_filter@[b]@);
            }
        }
        false
    }
}

/// Whether any of `filters` admits `node`.
pub fn is_visible(filters: &Vec<DatasourceViewFilter>, node: &Node) -> (r: bool)
    ensures
        r == visible(filters_view(filters@), node@),
{
    let ghost fs = filters_view(filters@);
    let mut k: usize = 0;
    while k < filters.len()
        invariant
            k <= filters@.len(),
            fs == filters_view(filters@),
            forall|m: int| 0 <= m < k ==> !admits(#[trigger] fs[m], node@),
        decreases filters@.len() - k,
    {
        if filters[k].admits_node(node) {
            assert(admits(fs[k as int], node@));
            return true;
        }
        k = k + 1;
    }
    false
}

} // verus!
