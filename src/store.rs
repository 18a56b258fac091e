use vstd::prelude::*;
use crate::model::{Document, Node};
use crate::filter::{DatasourceViewFilter, filters_view, visible};
use crate::options::{NodesSearchOptions, effective_limit};

verus! {

/// Why a search did not produce results.
#[derive(Debug, PartialEq, Eq)]
pub enum SearchError {
    /// The backend could not be reached or refused the request; the text
    /// describes the failure.
    Backend(String),
    /// The backend answered with a body that lacks the expected result list.
    InvalidResponse,
}

/// A handle on a searchable index of nodes.
///
/// Every implementation keeps tenants apart: a search returns only nodes that
/// one of the given filters admits, so an empty filter list returns nothing.
/// Indexing is best effort: it reports success to the caller whatever
/// happened, and a failure is only recorded for operators.
pub trait SearchStore: Sized {
    /// The handle is in a usable state.
    spec fn wf(&self) -> bool;

    /// The nodes that match `query` and that `filter` admits, in rank order,
    /// paged by `options`.
    fn search_nodes(
        &self,
        query: String,
        filter: Vec<DatasourceViewFilter>,
        options: Option<NodesSearchOptions>,
    ) -> (r: Result<Vec<Node>, SearchError>)
        requires
            self.wf(),
        ensures
            r is Ok ==> forall|i: int|
                0 <= i < r->Ok_0@.len() ==> visible(filters_view(filter@), #[trigger] r->Ok_0@[i]@),
            r is Ok ==> r->Ok_0@.len() <= effective_limit(options),
    ;

    /// Submits `document` for indexing; the caller always sees success.
    fn index_document(&mut self, document: &Document) -> (r: Result<(), SearchError>)
        requires
            old(self).wf(),
        ensures
            final(self).wf(),
            r is Ok,
    ;

    /// A second handle on the same index.
    fn clone_box(&self) -> (r: Self)
        requires
            self.wf(),
        ensures
            r.wf(),
    ;
}

} // verus!
