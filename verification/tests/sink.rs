use dissolve::{NodeData, NodeOrText, QualName, QuirksMode, TextOnly};

fn qual_name(local: &str) -> QualName {
    QualName { ns: String::from("http://www.w3.org/1999/xhtml"), prefix: None, local: local.to_string() }
}

#[test]
fn fresh_sink_is_empty() {
    let sink = TextOnly::new();
    assert_eq!(sink.finish(), "");
}

#[test]
fn default_matches_new() {
    let sink = TextOnly::default();
    assert_eq!(sink.finish(), "");
}

#[test]
fn appends_concatenate_in_order() {
    let mut sink = TextOnly::new();
    let doc = sink.get_document();
    sink.append(&doc, &NodeOrText::AppendText(String::from("Hello")));
    let div = sink.create_element(qual_name("div"));
    sink.append(&doc, &NodeOrText::AppendNode(div));
    sink.append(&doc, &NodeOrText::AppendText(String::from("World!")));
    assert_eq!(sink.finish(), "HelloWorld!");
}

#[test]
fn append_based_on_parent_node_appends_text() {
    let mut sink = TextOnly::new();
    let doc = sink.get_document();
    let table = sink.create_element(qual_name("table"));
    sink.append(&doc, &NodeOrText::AppendText(String::from("a ")));
    sink.append_based_on_parent_node(&table, &doc, &NodeOrText::AppendText(String::from("b")));
    assert_eq!(sink.finish(), "a b");
}

#[test]
fn node_payloads_are_ignored() {
    let mut sink = TextOnly::new();
    let doc = sink.get_document();
    let div = sink.create_element(qual_name("div"));
    let span = sink.create_element(qual_name("span"));
    sink.append(&doc, &NodeOrText::AppendNode(div));
    sink.append_based_on_parent_node(&doc, &doc, &NodeOrText::AppendNode(span));
    assert_eq!(sink.finish(), "");
}

#[test]
fn same_node_distinguishes_creations() {
    let mut sink = TextOnly::new();
    let doc = sink.get_document();
    let div = sink.create_element(qual_name("div"));
    assert!(sink.same_node(&doc, &doc));
    assert!(sink.same_node(&div, &div));
    assert!(!sink.same_node(&doc, &div));
}

#[test]
fn elem_name_returns_the_stored_name() {
    let mut sink = TextOnly::new();
    let title = sink.create_element(qual_name("title"));
    assert!(title.is_element());
    let name = sink.elem_name(&title);
    assert_eq!(name.local, "title");
    assert_eq!(name.ns, "http://www.w3.org/1999/xhtml");
    assert_eq!(name.prefix, None);
}

#[test]
fn template_contents_is_a_fresh_document() {
    let mut sink = TextOnly::new();
    let template = sink.create_element(qual_name("template"));
    let contents = sink.get_template_contents(&template);
    assert!(!contents.is_element());
    assert!(!sink.same_node(&contents, &template));
    assert!(matches!(contents.data, NodeData::Document));
}

#[test]
fn comments_and_instructions_carry_no_text() {
    let mut sink = TextOnly::new();
    let doc = sink.get_document();
    let comment = sink.create_comment("invisible");
    let pi = sink.create_pi("target", "data");
    sink.append(&doc, &NodeOrText::AppendNode(comment));
    sink.append(&doc, &NodeOrText::AppendNode(pi));
    assert_eq!(sink.finish(), "");
}

#[test]
fn structural_callbacks_leave_the_text_alone() {
    let mut sink = TextOnly::new();
    let doc = sink.get_document();
    sink.append(&doc, &NodeOrText::AppendText(String::from("kept")));
    let div = sink.create_element(qual_name("div"));
    let span = sink.create_element(qual_name("span"));
    sink.parse_error("stray tag");
    sink.set_quirks_mode(QuirksMode::Quirks);
    sink.set_quirks_mode(QuirksMode::LimitedQuirks);
    sink.set_quirks_mode(QuirksMode::NoQuirks);
    sink.append_doctype_to_document("html", "", "");
    sink.add_attrs_if_missing(&div);
    sink.remove_from_parent(&span);
    sink.reparent_children(&div, &span);
    assert_eq!(sink.finish(), "kept");
}

#[test]
fn capacity_is_reported() {
    let sink = TextOnly::new();
    assert!(sink.has_capacity());
}
