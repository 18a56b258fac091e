use vstd::prelude::*;
use crate::model::{Node, nodes_view};

verus! {

/// The number of results returned when a caller gives no limit.
pub const DEFAULT_LIMIT: usize = 10;

/// Paging of search results: at most `limit` results, after skipping the
/// first `offset` of the ranked matches. An absent field takes its default.
#[derive(Debug)]
pub struct NodesSearchOptions {
    pub limit: Option<usize>,
    pub offset: Option<usize>,
}

/// The limit in effect for `limit`.
pub open spec fn limit_or_default(limit: Option<usize>) -> nat {
    match limit {
        Some(l) => l as nat,
        None => DEFAULT_LIMIT as nat,
    }
}

/// The offset in effect for `offset`.
pub open spec fn offset_or_default(offset: Option<usize>) -> nat {
    match offset {
        Some(o) => o as nat,
        None => 0,
    }
}

/// The limit in effect for an optional set of options.
pub open spec fn effective_limit(options: Option<NodesSearchOptions>) -> nat {
    match options {
        Some(o) => limit_or_default(o.limit),
        None => DEFAULT_LIMIT as nat,
    }
}

/// The offset in effect for an optional set of options.
pub open spec fn effective_offset(options: Option<NodesSearchOptions>) -> nat {
    match options {
        Some(o) => offset_or_default(o.offset),
        None => 0,
    }
}

impl Default for NodesSearchOptions {
    fn default() -> (r: NodesSearchOptions)
        ensures
            r.limit == Some(DEFAULT_LIMIT),
            r.offset == Some(0usize),
    {
        NodesSearchOptions { limit: Some(DEFAULT_LIMIT), offset: Some(0) }
    }
}

impl NodesSearchOptions {
    pub fn new(limit: Option<usize>, offset: Option<usize>) -> (r: NodesSearchOptions)
        ensures
            r.limit == limit,
            r.offset == offset,
    {
        NodesSearchOptions { limit, offset }
    }

    /// The limit in effect.
    pub fn limit(&self) -> (r: usize)
        ensures
            r == limit_or_default(self.limit),
    {
        match self.limit {
            Some(l) => l,
            None => DEFAULT_LIMIT,
        }
    }

    /// The offset in effect.
    pub fn offset(&self) -> (r: usize)
        ensures
            r == offset_or_default(self.offset),
    {
        match self.offset {
            Some(o) => o,
            None => 0,
        }
    }
}

/// The offset and the limit in effect for an optional set of options.
pub fn resolve_options(options: &Option<NodesSearchOptions>) -> (r: (usize, usize))
    ensures
        r.0 == effective_offset(*options),
        r.1 == effective_limit(*options),
{
    match options {
        Some(o) => (o.offset(), o.limit()),
        None => (0, DEFAULT_LIMIT),
    }
}

/// The smaller of two numbers.
pub open spec fn min_nat(a: nat, b: nat) -> nat {
    if a <= b { a } else { b }
}

/// The items of `s` that remain after skipping `offset` of them and keeping at
/// most `limit`.
pub open spec fn page<A>(s: Seq<A>, offset: nat, limit: nat) -> Seq<A> {
    s.subrange(min_nat(offset, s.len()) as int, min_nat(offset + limit, s.len()) as int)
}

/// The page of `nodes` that `offset` and `limit` select.
pub fn page_nodes(nodes: &Vec<Node>, offset: usize, limit: usize) -> (r: Vec<Node>)
    ensures
        nodes_view(r@) == page(nodes_view(nodes@), offset as nat, limit as nat),
{
    let n = nodes.len();
    let start: usize = if offset < n { offset } else { n };
    let end: usize = if limit < n - start { start + limit } else { n };
    let mut r: Vec<Node> = Vec::new();
    let mut i: usize = start;
    while i < end
        invariant
            start <= i <= end <= nodes@.len(),
            r@.len() == i - start,
            forall|k: int| 0 <= k < i - start ==> #[trigger] r@[k]@ == nodes@[start + k]@,
        decreases end - i,
    {
        r.push(nodes[i].copy());
        i = i + 1;
    }
    assert(nodes_view(r@) =~= page(nodes_view(nodes@), offset as nat, limit as nat));
    r
}

} // verus!
