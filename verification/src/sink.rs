use vstd::prelude::*;
use vstd::string::StringExecFns;

use crate::node::{Node, NodeData, QualName};
use crate::protocol::{event_text, replay, Event};

verus! {

/// The payload of an append callback: a structural node or a run of
/// character data. Only the text matters to extraction.
pub enum NodeOrText {
    AppendNode(Node),
    AppendText(String),
}

/// The insertion that a payload stands for in the abstract model.
pub open spec fn payload_event(child: NodeOrText) -> Event {
    match child {
        NodeOrText::AppendText(t) => Event::Text(t@),
        NodeOrText::AppendNode(_) => Event::Structure,
    }
}

/// Document-wide quirks mode, as reported by the parser. It affects
/// structural interpretation upstream and is irrelevant to extraction.
pub enum QuirksMode {
    Quirks,
    LimitedQuirks,
    NoQuirks,
}

/// The text-extraction sink: the consumer of the HTML5 tree-construction
/// callbacks. It keeps one append-only buffer of characters and a counter
/// of issued node identities, and no tree at all; every text-bearing
/// callback funnels into the same ordered append, so the buffer holds the
/// document's text in document order.
pub struct TextOnly {
    buf: String,
    next_id: u64,
    history: Ghost<Seq<Event>>,
}

impl TextOnly {
    /// The characters accumulated so far, in arrival order.
    pub closed spec fn text(self) -> Seq<char> {
        self.buf@
    }

    /// The insertions received so far, text runs and structural payloads
    /// alike, in arrival order.
    pub closed spec fn events(self) -> Seq<Event> {
        self.history@
    }

    /// How many node identities the sink has issued.
    pub closed spec fn ids_issued(self) -> int {
        self.next_id as int
    }

    /// Well-formed: the buffer holds exactly the replay of the insertions
    /// received — every text run, in order, and nothing else.
    pub open spec fn wf(self) -> bool {
        self.text() == replay(self.events())
    }

    /// Whether the sink can still issue a fresh node identity.
    pub open spec fn can_create(self) -> bool {
        self.ids_issued() < u64::MAX
    }

    /// Exec view of `can_create`, for a driver that must check before it
    /// asks for a node.
    pub fn has_capacity(&self) -> (r: bool)
        ensures
            r == self.can_create(),
    {
        self.next_id < u64::MAX
    }

    /// A fresh sink: empty buffer, no insertions, no identities issued.
    pub fn new() -> (sink: TextOnly)
        ensures
            sink.wf(),
            sink.text() == Seq::<char>::empty(),
            sink.events() == Seq::<Event>::empty(),
            sink.ids_issued() == 0,
    {
        TextOnly { buf: String::new(), next_id: 0, history: Ghost(Seq::empty()) }
    }

    /// Issues the next identity and wraps it in a node; the buffer and the
    /// insertion history are untouched.
    fn fresh_node(&mut self, data: NodeData) -> (n: Node)
        requires
            old(self).can_create(),
        ensures
            final(self).text() == old(self).text(),
            final(self).events() == old(self).events(),
            final(self).ids_issued() == old(self).ids_issued() + 1,
            old(self).wf() ==> final(self).wf(),
            n.id as int == old(self).ids_issued(),
            n.data == data,
    {
        let id = self.next_id;
        self.next_id = self.next_id + 1;
        Node::new(id, data)
    }

    /// The root document handle: a fresh `Document` node.
    pub fn get_document(&mut self) -> (n: Node)
        requires
            old(self).wf(),
            old(self).can_create(),
        ensures
            final(self).wf(),
            final(self).text() == old(self).text(),
            final(self).events() == old(self).events(),
            final(self).ids_issued() == old(self).ids_issued() + 1,
            n.id as int == old(self).ids_issued(),
            n.data is Document,
    {
        self.fresh_node(NodeData::Document)
    }

    /// A new `Element` node capturing only the qualified name; the markup's
    /// attributes and flags are of no use to text extraction and are
    /// discarded by the driver before this call.
    pub fn create_element(&mut self, name: QualName) -> (n: Node)
        requires
            old(self).wf(),
            old(self).can_create(),
        ensures
            final(self).wf(),
            final(self).text() == old(self).text(),
            final(self).events() == old(self).events(),
            final(self).ids_issued() == old(self).ids_issued() + 1,
            n.id as int == old(self).ids_issued(),
            n.data == (NodeData::Element { name }),
    {
        self.fresh_node(NodeData::Element { name })
    }

    /// A new `Comment` node; the comment's text is invisible and dropped.
    pub fn create_comment(&mut self, _text: &str) -> (n: Node)
        requires
            old(self).wf(),
            old(self).can_create(),
        ensures
            final(self).wf(),
            final(self).text() == old(self).text(),
            final(self).events() == old(self).events(),
            final(self).ids_issued() == old(self).ids_issued() + 1,
            n.id as int == old(self).ids_issued(),
            n.data is Comment,
    {
        self.fresh_node(NodeData::Comment)
    }

    /// A new `ProcessingInstruction` node; target and data carry no
    /// visible text and are dropped.
    pub fn create_pi(&mut self, _target: &str, _data: &str) -> (n: Node)
        requires
            old(self).wf(),
            old(self).can_create(),
        ensures
            final(self).wf(),
            final(self).text() == old(self).text(),
            final(self).events() == old(self).events(),
            final(self).ids_issued() == old(self).ids_issued() + 1,
            n.id as int == old(self).ids_issued(),
            n.data is ProcessingInstruction,
    {
        self.fresh_node(NodeData::ProcessingInstruction)
    }

    /// The synthetic "template contents" container: a fresh `Document`
    /// node. Template contents thereby get their own nominal destination,
    /// but appends are global, so template text lands in the one shared
    /// buffer at its point of occurrence — deliberately, as extraction
    /// treats template contents as ordinary in-place text.
    pub fn get_template_contents(&mut self, _target: &Node) -> (n: Node)
        requires
            old(self).wf(),
            old(self).can_create(),
        ensures
            final(self).wf(),
            final(self).text() == old(self).text(),
            final(self).events() == old(self).events(),
            final(self).ids_issued() == old(self).ids_issued() + 1,
            n.id as int == old(self).ids_issued(),
            n.data is Document,
    {
        self.fresh_node(NodeData::Document)
    }

    /// Records one insertion: a text payload is appended verbatim to the
    /// buffer, a node payload leaves it unchanged (structure is not
    /// tracked). This is the single funnel every text-bearing callback
    /// goes through, which is what keeps the output in document order.
    fn insert(&mut self, child: &NodeOrText)
        requires
            old(self).wf(),
        ensures
            final(self).wf(),
            final(self).ids_issued() == old(self).ids_issued(),
            final(self).events() == old(self).events().push(payload_event(*child)),
            final(self).text() == old(self).text() + event_text(payload_event(*child)),
    {
        if let NodeOrText::AppendText(text) = child {
            self.buf.append(text.as_str());
        }
        proof {
            let e = payload_event(*child);
            let prior = self.history@;
            self.history@ = self.history@.push(e);
            assert(self.history@.drop_last() =~= prior);
            assert(self.text() =~= replay(self.history@));
        }
    }

    /// Append under a parent. A text payload goes verbatim into the shared
    /// buffer; a node payload is ignored, since no topology is kept.
    pub fn append(&mut self, _parent: &Node, child: &NodeOrText)
        requires
            old(self).wf(),
        ensures
            final(self).wf(),
            final(self).ids_issued() == old(self).ids_issued(),
            final(self).events() == old(self).events().push(payload_event(*child)),
            final(self).text() == old(self).text() + event_text(payload_event(*child)),
    {
        self.insert(child);
    }

    /// Append at a position decided by whether the element has a parent —
    /// the protocol's hook for foster-parenting decisions inside tables.
    /// Structure is discarded here, so the reaction is identical to
    /// `append`: only the text payload matters, and it keeps its arrival
    /// order.
    pub fn append_based_on_parent_node(
        &mut self,
        _element: &Node,
        _prev_element: &Node,
        child: &NodeOrText,
    )
        requires
            old(self).wf(),
        ensures
            final(self).wf(),
            final(self).ids_issued() == old(self).ids_issued(),
            final(self).events() == old(self).events().push(payload_event(*child)),
            final(self).text() == old(self).text() + event_text(payload_event(*child)),
    {
        self.insert(child);
    }

    /// The qualified name of an element node. The parser promises to ask
    /// only for elements; the other variants are ruled out here.
    pub fn elem_name<'a>(&self, target: &'a Node) -> (name: &'a QualName)
        requires
            target.data is Element,
        ensures
            *name == target.element_name(),
    {
        match &target.data {
            NodeData::Element { name } => name,
            _ => vstd::pervasive::unreached(),
        }
    }

    /// Reference-identity comparison: two handles denote the same creation
    /// exactly when they carry the same identity.
    pub fn same_node(&self, x: &Node, y: &Node) -> (r: bool)
        ensures
            r == (x.id == y.id),
    {
        x.id == y.id
    }

    /// A doctype carries no visible text: nothing to record.
    pub fn append_doctype_to_document(&self, _name: &str, _public_id: &str, _system_id: &str) {
    }

    /// Markup errors are recovered upstream by the parser; the sink takes
    /// no corrective action and never fails on malformed input.
    pub fn parse_error(&self, _msg: &str) {
    }

    /// Quirks mode changes structural interpretation upstream, not the
    /// text: nothing to record.
    pub fn set_quirks_mode(&self, _mode: QuirksMode) {
    }

    /// Attributes are invisible to extraction: nothing to record.
    pub fn add_attrs_if_missing(&self, _target: &Node) {
    }

    /// No parent links exist to remove a node from.
    pub fn remove_from_parent(&self, _target: &Node) {
    }

    /// No child links exist to move. Safe precisely because every text run
    /// was already appended to the flat buffer when it was first inserted:
    /// moving structural children afterwards cannot touch the text.
    pub fn reparent_children(&self, _node: &Node, _new_parent: &Node) {
    }

    /// Consumes the sink and yields the accumulated text — the replay of
    /// every insertion received, exactly once.
    pub fn finish(self) -> (out: String)
        ensures
            out@ == self.text(),
    {
        self.buf
    }
}

impl Default for TextOnly {
    /// Same as `TextOnly::new`: an empty, well-formed sink.
    fn default() -> (sink: TextOnly)
        ensures
            sink.wf(),
            sink.text() == Seq::<char>::empty(),
            sink.events() == Seq::<Event>::empty(),
            sink.ids_issued() == 0,
    {
        TextOnly::new()
    }
}

} // verus!
