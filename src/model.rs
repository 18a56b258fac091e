use vstd::prelude::*;

verus! {

/// The mathematical view of a string list.
pub open spec fn strings_view(v: Seq<String>) -> Seq<Seq<char>> {
    v.map_values(|s: String| s@)
}

/// Copies a list of strings, keeping every character.
pub fn copy_strings(v: &Vec<String>) -> (r: Vec<String>)
    ensures
        strings_view(r@) == strings_view(v@),
{
    let mut r: Vec<String> = Vec::new();
    let mut i: usize = 0;
    while i < v.len()
        invariant
            i <= v@.len(),
            r@.len() == i,
            forall|k: int| 0 <= k < i ==> #[trigger] r@[k]@ == v@[k]@,
        decreases v@.len() - i,
    {
        r.push(v[i].clone());
        i = i + 1;
    }
    assert(strings_view(r@) =~= strings_view(v@));
    r
}

/// What a node is, as plain values.
pub ghost struct NodeView {
    pub node_id: Seq<char>,
    pub data_source_id: Seq<char>,
    pub title: Seq<char>,
    pub parents: Seq<Seq<char>>,
}

/// A record as the search index stores and returns it.
#[derive(Debug)]
pub struct Node {
    pub node_id: String,
    pub data_source_id: String,
    pub title: String,
    pub parents: Vec<String>,
}

impl View for Node {
    type V = NodeView;

    open spec fn view(&self) -> NodeView {
        NodeView {
            node_id: self.node_id@,
            data_source_id: self.data_source_id@,
            title: self.title@,
            parents: strings_view(self.parents@),
        }
    }
}

/// The views of a list of nodes.
pub open spec fn nodes_view(v: Seq<Node>) -> Seq<NodeView> {
    v.map_values(|n: Node| n@)
}

impl Node {
    pub fn new(node_id: String, data_source_id: String, title: String, parents: Vec<String>) -> (r: Node)
        ensures
            r.node_id@ == node_id@,
            r.data_source_id@ == data_source_id@,
            r.title@ == title@,
            r.parents@ == parents@,
    {
        Node { node_id, data_source_id, title, parents }
    }

    /// A node equal to this one in every field.
    pub fn copy(&self) -> (r: Node)
        ensures
            r@ == self@,
    {
        Node {
            node_id: self.node_id.clone(),
            data_source_id: self.data_source_id.clone(),
            title: self.title.clone(),
            parents: copy_strings(&self.parents),
        }
    }

    /// The node that indexing `document` stores.
    pub fn from_document(document: &Document) -> (r: Node)
        ensures
            r@ == document@.projection(),
    {
        Node {
            node_id: document.document_id.clone(),
            data_source_id: document.data_source_id.clone(),
            title: document.title.clone(),
            parents: copy_strings(&document.parents),
        }
    }
}

/// Copies a list of nodes.
pub fn copy_nodes(v: &Vec<Node>) -> (r: Vec<Node>)
    ensures
        nodes_view(r@) == nodes_view(v@),
{
    let mut r: Vec<Node> = Vec::new();
    let mut i: usize = 0;
    while i < v.len()
        invariant
            i <= v@.len(),
            r@.len() == i,
            forall|k: int| 0 <= k < i ==> #[trigger] r@[k]@ == v@[k]@,
        decreases v@.len() - i,
    {
        r.push(v[i].copy());
        i = i + 1;
    }
    assert(nodes_view(r@) =~= nodes_view(v@));
    r
}

/// What a document is, as plain values.
pub ghost struct DocumentView {
    pub document_id: Seq<char>,
    pub data_source_id: Seq<char>,
    pub title: Seq<char>,
    pub parents: Seq<Seq<char>>,
}

impl DocumentView {
    /// The node that stands for this document in the index.
    pub open spec fn projection(self) -> NodeView {
        NodeView {
            node_id: self.document_id,
            data_source_id: self.data_source_id,
            title: self.title,
            parents: self.parents,
        }
    }
}

/// A document handed over for indexing: its identifier, the data source it
/// belongs to, its title and its ancestry.
#[derive(Debug)]
pub struct Document {
    pub document_id: String,
    pub data_source_id: String,
    pub title: String,
    pub parents: Vec<String>,
}

impl View for Document {
    type V = DocumentView;

    open spec fn view(&self) -> DocumentView {
        DocumentView {
            document_id: self.document_id@,
            data_source_id: self.data_source_id@,
            title: self.title@,
            parents: strings_view(self.parents@),
        }
    }
}

impl Document {
    pub fn new(document_id: String, data_source_id: String, title: String, parents: Vec<String>) -> (r: Document)
        ensures
            r.document_id@ == document_id@,
            r.data_source_id@ == data_source_id@,
            r.title@ == title@,
            r.parents@ == parents@,
    {
        Document { document_id, data_source_id, title, parents }
    }
}

} // verus!
