use vstd::prelude::*;

verus! {

/// A qualified element name — namespace URL, optional prefix and local
/// name — held as plain strings. Only elements carry one; the parser asks
/// it back during tree construction (for instance to drive foster
/// parenting and template handling).
#[derive(Clone)]
pub struct QualName {
    pub ns: String,
    pub prefix: Option<String>,
    pub local: String,
}

/// What a construction-time artifact is. The sink keeps no topology at
/// all: a node is a leaf value, and only an element's qualified name is
/// ever read back.
#[derive(Clone)]
pub enum NodeData {
    Document,
    Comment,
    ProcessingInstruction,
    Element { name: QualName },
}

/// A handle to one construction-time artifact. `id` is unique among the
/// nodes a single sink creates and stands for allocation identity: the
/// parser compares handles only to ask whether they denote the same
/// creation.
#[derive(Clone)]
pub struct Node {
    pub id: u64,
    pub data: NodeData,
}

impl Node {
    /// A node with the given identity and payload.
    pub(crate) fn new(id: u64, data: NodeData) -> (n: Node)
        ensures
            n.id == id,
            n.data == data,
    {
        Node { id, data }
    }

    /// The qualified name of an element node; meaningless for the other
    /// variants.
    pub open spec fn element_name(self) -> QualName
        recommends
            self.data is Element,
    {
        self.data->Element_name
    }

    /// Whether this node is an element (the only variant that carries a
    /// qualified name).
    pub fn is_element(&self) -> (r: bool)
        ensures
            r == (self.data is Element),
    {
        matches!(self.data, NodeData::Element { .. })
    }
}

} // verus!
