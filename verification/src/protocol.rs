use vstd::prelude::*;

verus! {

/// One insertion delivered by the HTML5 tree-construction algorithm to the
/// sink: either a run of character data or a structural node (an element, a
/// comment or a processing instruction). Only text runs carry visible
/// content; structural insertions are recorded so that the model can say,
/// and prove, that they contribute nothing to the output.
pub enum Event {
    Text(Seq<char>),
    Structure,
}

/// The visible text of a single insertion: the characters of a text run,
/// nothing for a structural node.
pub open spec fn event_text(e: Event) -> Seq<char> {
    match e {
        Event::Text(t) => t,
        Event::Structure => Seq::empty(),
    }
}

/// The text that a whole insertion stream yields: the concatenation of its
/// text runs, in the order they arrive. This is the abstract meaning of the
/// sink's buffer.
pub open spec fn replay(events: Seq<Event>) -> Seq<char>
    decreases events.len(),
{
    if events.len() == 0 {
        Seq::empty()
    } else {
        replay(events.drop_last()) + event_text(events.last())
    }
}

/// Document order is preserved: the text of a combined stream is the text
/// of its first part followed by the text of its second, so insertions that
/// arrive earlier contribute earlier output, whatever nesting or structural
/// context they came from.
pub proof fn lemma_replay_concat(a: Seq<Event>, b: Seq<Event>)
    ensures
        replay(a + b) == replay(a) + replay(b),
    decreases b.len(),
{
    if b.len() == 0 {
        assert(a + b =~= a);
        assert(replay(a) + replay(b) =~= replay(a));
    } else {
        lemma_replay_concat(a, b.drop_last());
        assert((a + b).drop_last() =~= a + b.drop_last());
        assert((a + b).last() == b.last());
        assert(replay(a) + replay(b.drop_last()) + event_text(b.last()) =~= replay(a) + replay(
            b,
        ));
    }
}

/// A structural insertion is a no-op for extraction: inserting a node
/// anywhere in the stream leaves the extracted text unchanged. This is why
/// the sink may discard structure — node appends, reparenting and removal
/// touch only what extraction never reads.
pub proof fn lemma_structure_noop(a: Seq<Event>, b: Seq<Event>)
    ensures
        replay(a + seq![Event::Structure] + b) == replay(a + b),
{
    let s = seq![Event::Structure];
    assert(s.last() == Event::Structure);
    assert(s.drop_last() =~= Seq::<Event>::empty());
    assert(replay(s.drop_last()) == Seq::<char>::empty());
    assert(replay(s) =~= Seq::<char>::empty());
    lemma_replay_concat(a, s);
    lemma_replay_concat(a + s, b);
    lemma_replay_concat(a, b);
    assert(replay(a + s) =~= replay(a));
    assert(replay(a + s + b) =~= replay(a + b));
}

/// A stream with no text runs yields no output: markup that contains only
/// tags, attributes, comments and doctypes extracts to the empty string.
pub proof fn lemma_no_text_no_output(events: Seq<Event>)
    requires
        forall|i: int| 0 <= i < events.len() ==> !(events[i] is Text),
    ensures
        replay(events) == Seq::<char>::empty(),
    decreases events.len(),
{
    if events.len() > 0 {
        lemma_no_text_no_output(events.drop_last());
        assert(replay(events) =~= Seq::<char>::empty());
    }
}

/// The text runs of a stream, in order, with every structural insertion
/// dropped.
pub open spec fn text_events(events: Seq<Event>) -> Seq<Event> {
    events.filter(|e: Event| e is Text)
}

/// Extraction is a lossy but order-preserving projection: the output is
/// exactly what the text runs alone would produce, in their arrival order —
/// nothing is dropped, reordered or invented by the structural insertions
/// around them.
pub proof fn lemma_replay_projects_text(events: Seq<Event>)
    ensures
        replay(events) == replay(text_events(events)),
    decreases events.len(),
{
    reveal(Seq::filter);
    if events.len() > 0 {
        lemma_replay_projects_text(events.drop_last());
        let sub = text_events(events.drop_last());
        if events.last() is Text {
            assert(text_events(events) == sub.push(events.last()));
            assert(sub.push(events.last()).drop_last() =~= sub);
        } else {
            assert(text_events(events) == sub);
            assert(replay(events) =~= replay(sub));
        }
    }
}

/// Extraction is a pure function of the insertion stream: two parses that
/// deliver the same insertions yield the same text, with no hidden state
/// carried between runs. Stated for the record; it holds because `replay`
/// depends on the stream alone.
pub proof fn lemma_replay_deterministic(a: Seq<Event>, b: Seq<Event>)
    requires
        a == b,
    ensures
        replay(a) == replay(b),
{
}

} // verus!
