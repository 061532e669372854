//! The builder driven instruction by instruction, and the document read back
//! through `sxd_document`.

use sxd_document::dom::{ChildOfElement, ChildOfRoot, Document, Element};
use sxd_html::builder::{last_text, new_package, DomBuilder};
use sxd_html::handle::{ElementHandle, Handle, NextParserState, NodeOrText, QuirksMode};
use sxd_html::instruction::{Fault, Instruction, Reply};
use sxd_html::name::{Attribute, QualName};
use sxd_html::store::ChildRef;

const HTML_NS: &str = "http://www.w3.org/1999/xhtml";

fn name(local: &str) -> QualName {
    QualName::new(HTML_NS.to_string(), local.to_string())
}

fn attr(local: &str, value: &str) -> Attribute {
    Attribute { name: QualName::new(String::new(), local.to_string()), value: value.to_string() }
}

fn text(characters: &str) -> NodeOrText<'static> {
    NodeOrText::AppendText(characters.to_string())
}

fn node<'d>(handle: &Handle<'d>) -> NodeOrText<'d> {
    NodeOrText::AppendNode(handle.clone())
}

fn element<'d>(handle: &Handle<'d>) -> Element<'d> {
    match handle {
        Handle::Element(e) => e.sxd,
        _ => panic!("no element"),
    }
}

fn document<'d>(handle: &Handle<'d>) -> Document<'d> {
    match handle {
        Handle::Element(e) => e.sxd.document(),
        Handle::Comment(c) => c.document(),
        Handle::Doc => panic!("no node"),
    }
}

fn texts_of(element: Element<'_>) -> Vec<String> {
    element
        .children()
        .iter()
        .map(|child| match child {
            ChildOfElement::Text(t) => t.text().to_string(),
            ChildOfElement::Element(e) => format!("<{}>", e.name().local_part()),
            ChildOfElement::Comment(c) => format!("<!--{}-->", c.text()),
            ChildOfElement::ProcessingInstruction(_) => "<?>".to_string(),
        })
        .collect()
}

fn root_of(doc: Document<'_>) -> Vec<String> {
    doc.root()
        .children()
        .iter()
        .map(|child| match child {
            ChildOfRoot::Element(e) => format!("<{}>", e.name().local_part()),
            ChildOfRoot::Comment(c) => format!("<!--{}-->", c.text()),
            ChildOfRoot::ProcessingInstruction(_) => "<?>".to_string(),
        })
        .collect()
}

#[test]
fn new_builder_is_building() {
    let mut package = new_package();
    let builder = DomBuilder::new(&mut package);

    assert!(!builder.finished());
    assert!(package.as_document().root().children().is_empty());
}

#[test]
fn new_package_holds_nothing() {
    let package = new_package();

    assert!(package.as_document().root().children().is_empty());
}

#[test]
fn get_document_gives_the_root_handle() {
    let mut package = new_package();
    let mut builder = DomBuilder::new(&mut package);

    let root = builder.get_document();

    assert!(root.is_document());
    assert!(!root.is_element());
    assert!(!root.is_comment());
    assert!(builder.holds(&root));
}

#[test]
fn create_element_uses_the_local_name() {
    let mut package = new_package();
    let mut builder = DomBuilder::new(&mut package);

    let wanted = QualName {
        prefix: Some("svg".to_string()),
        ns: "http://www.w3.org/2000/svg".to_string(),
        local: "circle".to_string(),
    };
    let handle = builder.create_element(wanted.clone(), Vec::new());

    assert!(handle.is_element());
    let created = element(&handle);
    assert_eq!(created.name().local_part(), "circle");
    assert_eq!(created.name().namespace_uri(), None);
    assert!(created.attributes().is_empty());
    assert!(created.children().is_empty());
    assert!(created.parent().is_none());
    assert_eq!(*builder.elem_name(&handle), wanted);
}

#[test]
fn create_element_sets_each_attribute() {
    let mut package = new_package();
    let mut builder = DomBuilder::new(&mut package);

    let handle =
        builder.create_element(name("div"), vec![attr("id", "my_div"), attr("data-attr", "value")]);

    let div = element(&handle);
    assert_eq!(div.attribute_value("id"), Some("my_div"));
    assert_eq!(div.attribute_value("data-attr"), Some("value"));
    assert_eq!(div.attribute_value("class"), None);
    assert_eq!(div.attributes().len(), 2);
}

#[test]
fn repeated_attribute_keeps_the_last_value() {
    let mut package = new_package();
    let mut builder = DomBuilder::new(&mut package);

    let handle = builder.create_element(
        name("a"),
        vec![attr("href", "first"), attr("rel", "x"), attr("href", "second")],
    );

    let a = element(&handle);
    assert_eq!(a.attribute_value("href"), Some("second"));
    assert_eq!(a.attribute_value("rel"), Some("x"));
    assert_eq!(a.attributes().len(), 2);
}

#[test]
fn attribute_is_named_by_its_local_part() {
    let mut package = new_package();
    let mut builder = DomBuilder::new(&mut package);

    let lang = Attribute {
        name: QualName {
            prefix: Some("xml".to_string()),
            ns: "http://www.w3.org/XML/1998/namespace".to_string(),
            local: "lang".to_string(),
        },
        value: "en".to_string(),
    };
    let handle = builder.create_element(name("p"), vec![lang]);

    assert_eq!(element(&handle).attribute_value("lang"), Some("en"));
}

#[test]
fn elements_keep_their_own_attributes() {
    let mut package = new_package();
    let mut builder = DomBuilder::new(&mut package);

    let first = builder.create_element(name("p"), vec![attr("id", "one")]);
    let second = builder.create_element(name("p"), vec![attr("id", "two")]);

    assert_eq!(element(&first).attribute_value("id"), Some("one"));
    assert_eq!(element(&second).attribute_value("id"), Some("two"));
}

#[test]
fn create_comment_keeps_the_text() {
    let mut package = new_package();
    let mut builder = DomBuilder::new(&mut package);

    let handle = builder.create_comment("capture the flag".to_string());

    assert!(handle.is_comment());
    match handle {
        Handle::Comment(c) => {
            assert_eq!(c.text(), "capture the flag");
            assert!(c.parent().is_none());
        }
        _ => panic!("no comment"),
    }
}

#[test]
fn nodes_under_the_root_keep_their_order() {
    let mut package = new_package();
    let mut builder = DomBuilder::new(&mut package);

    let root = builder.get_document();
    let before = builder.create_comment("before".to_string());
    let html = builder.create_element(name("html"), Vec::new());
    let after = builder.create_comment("after".to_string());
    builder.append(&root, node(&before));
    builder.append(&root, node(&html));
    builder.append(&root, node(&after));

    assert_eq!(root_of(document(&html)), vec!["<!--before-->", "<html>", "<!--after-->"]);
}

#[test]
fn second_element_under_the_root_displaces_the_first() {
    let mut package = new_package();
    let mut builder = DomBuilder::new(&mut package);

    let root = builder.get_document();
    let first = builder.create_element(name("first"), Vec::new());
    let note = builder.create_comment("note".to_string());
    let second = builder.create_element(name("second"), Vec::new());
    builder.append(&root, node(&first));
    builder.append(&root, node(&note));
    builder.append(&root, node(&second));

    assert_eq!(root_of(document(&second)), vec!["<!--note-->", "<second>"]);
}

#[test]
fn nodes_under_an_element_keep_their_order() {
    let mut package = new_package();
    let mut builder = DomBuilder::new(&mut package);

    let body = builder.create_element(name("body"), Vec::new());
    let p = builder.create_element(name("p"), Vec::new());
    let note = builder.create_comment("note".to_string());
    let span = builder.create_element(name("span"), Vec::new());
    builder.append(&body, node(&p));
    builder.append(&body, node(&note));
    builder.append(&body, node(&span));

    assert_eq!(texts_of(element(&body)), vec!["<p>", "<!--note-->", "<span>"]);
    assert_eq!(element(&p).parent().unwrap().element(), Some(element(&body)));
}

#[test]
fn appended_node_leaves_its_former_parent() {
    let mut package = new_package();
    let mut builder = DomBuilder::new(&mut package);

    let first = builder.create_element(name("first"), Vec::new());
    let second = builder.create_element(name("second"), Vec::new());
    let child = builder.create_element(name("child"), Vec::new());
    let stay = builder.create_comment("stay".to_string());
    builder.append(&first, node(&child));
    builder.append(&first, node(&stay));
    builder.append(&second, node(&child));

    assert_eq!(texts_of(element(&first)), vec!["<!--stay-->"]);
    assert_eq!(texts_of(element(&second)), vec!["<child>"]);
}

#[test]
fn node_appended_twice_to_one_parent_moves_to_the_end() {
    let mut package = new_package();
    let mut builder = DomBuilder::new(&mut package);

    let parent = builder.create_element(name("ul"), Vec::new());
    let one = builder.create_element(name("one"), Vec::new());
    let two = builder.create_element(name("two"), Vec::new());
    builder.append(&parent, node(&one));
    builder.append(&parent, node(&two));
    builder.append(&parent, node(&one));

    assert_eq!(texts_of(element(&parent)), vec!["<two>", "<one>"]);
}

#[test]
fn moving_the_node_between_two_texts_leaves_them_side_by_side() {
    let mut package = new_package();
    let mut builder = DomBuilder::new(&mut package);

    let div = builder.create_element(name("div"), Vec::new());
    let span = builder.create_element(name("span"), Vec::new());
    let other = builder.create_element(name("p"), Vec::new());
    builder.append(&div, text("a"));
    builder.append(&div, node(&span));
    builder.append(&div, text("b"));
    builder.append(&other, node(&span));

    assert_eq!(texts_of(element(&div)), vec!["a", "b"]);
    assert_eq!(texts_of(element(&other)), vec!["<span>"]);
}

#[test]
fn last_text_looks_at_the_last_child() {
    let package = new_package();
    let doc = package.as_document();
    let p = doc.create_element("p");
    let c = doc.create_comment("c");
    let one = doc.create_text("one");
    let two = doc.create_text("two");

    assert!(last_text(&Vec::new()).is_none());
    assert!(last_text(&vec![ChildRef::Text(one)]) == Some(one));
    assert!(last_text(&vec![ChildRef::Text(one), ChildRef::Text(two)]) == Some(two));
    assert!(last_text(&vec![ChildRef::Element(p), ChildRef::Text(two)]) == Some(two));
    assert!(last_text(&vec![ChildRef::Text(one), ChildRef::Element(p)]).is_none());
    assert!(last_text(&vec![ChildRef::Text(one), ChildRef::Comment(c)]).is_none());
    assert!(last_text(&vec![ChildRef::Text(one), ChildRef::Other]).is_none());
    assert!(last_text(&vec![ChildRef::Other, ChildRef::Text(one)]) == Some(one));
}

#[test]
fn text_is_merged_into_the_last_of_many_children() {
    let mut package = new_package();
    let mut builder = DomBuilder::new(&mut package);

    let p = builder.create_element(name("p"), Vec::new());
    let b = builder.create_element(name("b"), Vec::new());
    let note = builder.create_comment("note".to_string());
    builder.append(&p, text("first"));
    builder.append(&p, node(&b));
    builder.append(&p, node(&note));
    builder.append(&p, text("last"));
    builder.append(&p, text("!"));

    assert_eq!(texts_of(element(&p)), vec!["first", "<b>", "<!--note-->", "last!"]);
}

#[test]
fn first_text_becomes_a_text_node() {
    let mut package = new_package();
    let mut builder = DomBuilder::new(&mut package);

    let p = builder.create_element(name("p"), Vec::new());
    builder.append(&p, text("a line\n"));

    assert_eq!(texts_of(element(&p)), vec!["a line\n"]);
}

#[test]
fn text_after_text_extends_the_text_node() {
    let mut package = new_package();
    let mut builder = DomBuilder::new(&mut package);

    let p = builder.create_element(name("p"), Vec::new());
    builder.append(&p, text("a line\n"));
    builder.append(&p, text(" \n"));
    builder.append(&p, text("another line\n"));

    assert_eq!(texts_of(element(&p)), vec!["a line\n \nanother line\n"]);
}

#[test]
fn text_after_an_element_starts_a_new_text_node() {
    let mut package = new_package();
    let mut builder = DomBuilder::new(&mut package);

    let p = builder.create_element(name("p"), Vec::new());
    let br = builder.create_element(name("br"), Vec::new());
    builder.append(&p, text("one"));
    builder.append(&p, node(&br));
    builder.append(&p, text("two"));
    builder.append(&p, text("three"));

    assert_eq!(texts_of(element(&p)), vec!["one", "<br>", "twothree"]);
}

#[test]
fn text_after_a_comment_starts_a_new_text_node() {
    let mut package = new_package();
    let mut builder = DomBuilder::new(&mut package);

    let p = builder.create_element(name("p"), Vec::new());
    let note = builder.create_comment("note".to_string());
    builder.append(&p, text("one"));
    builder.append(&p, node(&note));
    builder.append(&p, text("two"));

    assert_eq!(texts_of(element(&p)), vec!["one", "<!--note-->", "two"]);
}

#[test]
fn text_is_merged_per_element() {
    let mut package = new_package();
    let mut builder = DomBuilder::new(&mut package);

    let outer = builder.create_element(name("div"), Vec::new());
    let inner = builder.create_element(name("b"), Vec::new());
    builder.append(&outer, text("out"));
    builder.append(&outer, node(&inner));
    builder.append(&inner, text("in"));
    builder.append(&inner, text("side"));

    assert_eq!(texts_of(element(&outer)), vec!["out", "<b>"]);
    assert_eq!(texts_of(element(&inner)), vec!["inside"]);
}

#[test]
fn empty_text_is_still_a_text_node() {
    let mut package = new_package();
    let mut builder = DomBuilder::new(&mut package);

    let p = builder.create_element(name("p"), Vec::new());
    builder.append(&p, text(""));
    builder.append(&p, text("x"));

    assert_eq!(texts_of(element(&p)), vec!["x"]);
}

#[test]
fn elem_name_gives_the_name_of_creation() {
    let mut package = new_package();
    let mut builder = DomBuilder::new(&mut package);

    let script = builder.create_element(name("script"), Vec::new());
    let table = builder.create_element(name("table"), Vec::new());

    assert_eq!(builder.elem_name(&script).local, "script");
    assert_eq!(builder.elem_name(&script).ns, HTML_NS);
    assert_eq!(builder.elem_name(&script).prefix, None);
    assert_eq!(builder.elem_name(&table).local, "table");
}

#[test]
fn absorbed_instructions_change_nothing() {
    let mut package = new_package();
    let mut builder = DomBuilder::new(&mut package);

    let root = builder.get_document();
    let html = builder.create_element(name("html"), vec![attr("lang", "en")]);
    builder.append(&root, node(&html));
    builder.append(&html, text("x"));

    builder.append_doctype_to_document("html", "", "");
    builder.parse_error("unexpected token");
    builder.set_quirks_mode(QuirksMode::Quirks);
    builder.mark_script_already_started(&html);
    builder.pop(&html);
    builder.associate_with_form(&html, &html, (&html, None));
    builder.associate_with_form(&html, &html, (&html, Some(&root)));
    builder.set_current_line(7);

    assert!(!builder.finished());
    assert_eq!(root_of(document(&html)), vec!["<html>"]);
    assert_eq!(texts_of(element(&html)), vec!["x"]);
    assert_eq!(element(&html).attributes().len(), 1);
}

#[test]
fn complete_script_goes_on() {
    let mut package = new_package();
    let mut builder = DomBuilder::new(&mut package);

    let script = builder.create_element(name("script"), Vec::new());

    assert_eq!(builder.complete_script(&script), NextParserState::Continue);
}

#[test]
fn finish_hands_the_document_over() {
    let mut package = new_package();
    let mut builder = DomBuilder::new(&mut package);

    let root = builder.get_document();
    let html = builder.create_element(name("html"), Vec::new());
    builder.append(&root, node(&html));
    let finished = builder.finish();

    assert!(builder.finished());
    assert!(finished == document(&html));
    assert_eq!(root_of(finished), vec!["<html>"]);
}

#[test]
fn holds_tells_own_nodes_from_foreign_ones() {
    let mut package = new_package();
    let mut other = new_package();
    let mut builder = DomBuilder::new(&mut package);
    let mut stranger = DomBuilder::new(&mut other);

    let own = builder.create_element(name("p"), Vec::new());
    let own_comment = builder.create_comment("c".to_string());
    let foreign = stranger.create_element(name("p"), Vec::new());
    let foreign_comment = stranger.create_comment("c".to_string());

    assert!(builder.holds(&own));
    assert!(builder.holds(&own_comment));
    assert!(!builder.holds(&foreign));
    assert!(!builder.holds(&foreign_comment));
    assert!(stranger.holds(&foreign));
    assert!(!stranger.holds(&own));
}

#[test]
fn can_append_follows_the_kinds_of_the_handles() {
    let mut package = new_package();
    let mut other = new_package();
    let mut builder = DomBuilder::new(&mut package);
    let mut stranger = DomBuilder::new(&mut other);

    let root = builder.get_document();
    let p = builder.create_element(name("p"), Vec::new());
    let c = builder.create_comment("c".to_string());
    let foreign = stranger.create_element(name("p"), Vec::new());

    assert!(builder.can_append(&root, &node(&p)));
    assert!(builder.can_append(&root, &node(&c)));
    assert!(builder.can_append(&p, &node(&p)));
    assert!(builder.can_append(&p, &node(&c)));
    assert!(builder.can_append(&p, &text("t")));
    assert!(!builder.can_append(&root, &text("t")));
    assert!(!builder.can_append(&c, &text("t")));
    assert!(!builder.can_append(&c, &node(&p)));
    assert!(!builder.can_append(&root, &node(&root)));
    assert!(!builder.can_append(&p, &node(&root)));
    assert!(!builder.can_append(&p, &node(&foreign)));
    assert!(!builder.can_append(&foreign, &node(&p)));
    assert!(!builder.can_append(&foreign, &text("t")));
}

#[test]
fn handles_are_cloned_whole() {
    let mut package = new_package();
    let mut builder = DomBuilder::new(&mut package);

    let p = builder.create_element(name("p"), Vec::new());
    let c = builder.create_comment("c".to_string());

    match (&p, p.clone()) {
        (Handle::Element(a), Handle::Element(b)) => {
            assert!(a.sxd == b.sxd);
            assert_eq!(a.name, b.name);
            let again: ElementHandle<'_> = a.clone();
            assert!(again.sxd == a.sxd);
        }
        _ => panic!("no element"),
    }
    match (&c, c.clone()) {
        (Handle::Comment(a), Handle::Comment(b)) => assert!(*a == b),
        _ => panic!("no comment"),
    }
    assert!(Handle::Doc.clone().is_document());
    match text("abc").clone() {
        NodeOrText::AppendText(t) => assert_eq!(t, "abc"),
        _ => panic!("no text"),
    }
    match node(&p).clone() {
        NodeOrText::AppendNode(h) => assert!(h.is_element()),
        _ => panic!("no node"),
    }
    let a = attr("k", "v");
    assert_eq!(a.clone(), a);
}

#[test]
fn qual_name_new_has_no_prefix() {
    let made = QualName::new("ns".to_string(), "local".to_string());

    assert_eq!(made.prefix, None);
    assert_eq!(made.ns, "ns");
    assert_eq!(made.local, "local");
}

#[test]
fn apply_carries_out_what_the_methods_do() {
    let mut package = new_package();
    let mut builder = DomBuilder::new(&mut package);

    let root = match builder.apply(Instruction::GetDocument) {
        Ok(Reply::Node(h)) => h,
        other => panic!("{:?}", other),
    };
    assert!(root.is_document());
    let html = match builder.apply(Instruction::CreateElement {
        name: name("html"),
        attrs: vec![attr("lang", "en"), attr("lang", "fr")],
    }) {
        Ok(Reply::Node(h)) => h,
        other => panic!("{:?}", other),
    };
    let note = match builder.apply(Instruction::CreateComment { text: "note".to_string() }) {
        Ok(Reply::Node(h)) => h,
        other => panic!("{:?}", other),
    };
    assert!(matches!(
        builder.apply(Instruction::Append { parent: root.clone(), child: node(&note) }),
        Ok(Reply::Done)
    ));
    assert!(matches!(
        builder.apply(Instruction::Append { parent: root.clone(), child: node(&html) }),
        Ok(Reply::Done)
    ));
    assert!(matches!(
        builder.apply(Instruction::Append { parent: html.clone(), child: text("a") }),
        Ok(Reply::Done)
    ));
    assert!(matches!(
        builder.apply(Instruction::Append { parent: html.clone(), child: text("b") }),
        Ok(Reply::Done)
    ));
    match builder.apply(Instruction::ElemName { target: html.clone() }) {
        Ok(Reply::Name(n)) => assert_eq!(n, name("html")),
        other => panic!("{:?}", other),
    }

    assert_eq!(root_of(document(&html)), vec!["<!--note-->", "<html>"]);
    assert_eq!(texts_of(element(&html)), vec!["ab"]);
    assert_eq!(element(&html).attribute_value("lang"), Some("fr"));
    assert!(!builder.finished());
}

#[test]
fn apply_absorbs_what_the_document_has_no_place_for() {
    let mut package = new_package();
    let mut builder = DomBuilder::new(&mut package);
    let html = builder.create_element(name("html"), Vec::new());

    let absorbed = vec![
        Instruction::AppendDoctypeToDocument {
            name: "html".to_string(),
            public_id: String::new(),
            system_id: String::new(),
        },
        Instruction::SetQuirksMode { mode: QuirksMode::NoQuirks },
        Instruction::SetQuirksMode { mode: QuirksMode::LimitedQuirks },
        Instruction::MarkScriptAlreadyStarted { node: html.clone() },
        Instruction::Pop { node: html.clone() },
        Instruction::AssociateWithForm {
            target: html.clone(),
            form: html.clone(),
            element: html.clone(),
            prev_element: None,
        },
        Instruction::SetCurrentLine { line_number: 12 },
        Instruction::ParseError { message: "stray end tag".to_string() },
    ];
    for instruction in absorbed {
        assert!(matches!(builder.apply(instruction), Ok(Reply::Done)));
    }
    assert!(matches!(
        builder.apply(Instruction::CompleteScript { node: html.clone() }),
        Ok(Reply::Next(NextParserState::Continue))
    ));

    assert!(!builder.finished());
    assert!(root_of(document(&html)).is_empty());
    assert!(element(&html).children().is_empty());
}

fn unsupported<'d>(html: &Handle<'d>) -> Vec<Instruction<'d>> {
    vec![
        Instruction::CreatePi { target: "xml".to_string(), data: "x".to_string() },
        Instruction::AppendBasedOnParentNode {
            element: html.clone(),
            prev_element: html.clone(),
            child: text("t"),
        },
        Instruction::GetTemplateContents { target: html.clone() },
        Instruction::SameNode { x: html.clone(), y: html.clone() },
        Instruction::AppendBeforeSibling { sibling: html.clone(), new_node: text("t") },
        Instruction::AddAttrsIfMissing { target: html.clone(), attrs: vec![attr("a", "b")] },
        Instruction::RemoveFromParent { target: html.clone() },
        Instruction::ReparentChildren { node: html.clone(), new_parent: html.clone() },
    ]
}

#[test]
fn apply_refuses_what_the_builder_does_not_implement() {
    let mut package = new_package();
    let mut builder = DomBuilder::new(&mut package);
    let root = builder.get_document();
    let html = builder.create_element(name("html"), Vec::new());
    builder.append(&root, node(&html));

    for instruction in unsupported(&html) {
        assert!(!instruction.supported());
        assert!(matches!(builder.apply(instruction), Err(Fault::Unsupported)));
    }

    assert!(Instruction::GetDocument.supported());
    assert!(Instruction::Finish.supported());
    assert!(Instruction::Append { parent: root.clone(), child: text("t") }.supported());
    assert!(!builder.finished());
    assert_eq!(root_of(document(&html)), vec!["<html>"]);
    assert!(element(&html).children().is_empty());
    assert!(element(&html).attributes().is_empty());
}

#[test]
fn apply_refuses_handles_out_of_place() {
    let mut package = new_package();
    let mut other = new_package();
    let mut builder = DomBuilder::new(&mut package);
    let mut stranger = DomBuilder::new(&mut other);
    let root = builder.get_document();
    let p = builder.create_element(name("p"), Vec::new());
    let c = builder.create_comment("c".to_string());
    let foreign = stranger.create_element(name("p"), Vec::new());

    let out_of_place = vec![
        Instruction::Append { parent: root.clone(), child: text("t") },
        Instruction::Append { parent: c.clone(), child: text("t") },
        Instruction::Append { parent: c.clone(), child: node(&p) },
        Instruction::Append { parent: p.clone(), child: node(&root) },
        Instruction::Append { parent: p.clone(), child: node(&foreign) },
        Instruction::Append { parent: foreign.clone(), child: text("t") },
        Instruction::ElemName { target: root.clone() },
        Instruction::ElemName { target: c.clone() },
    ];
    for instruction in out_of_place {
        assert!(matches!(builder.apply(instruction), Err(Fault::Inconsistent)));
    }

    assert!(root_of(document(&p)).is_empty());
    assert!(element(&p).children().is_empty());
    assert!(element(&foreign).children().is_empty());
}

#[test]
fn apply_finishes_once() {
    let mut package = new_package();
    let mut builder = DomBuilder::new(&mut package);
    let root = builder.get_document();
    let html = builder.create_element(name("html"), Vec::new());
    builder.append(&root, node(&html));

    match builder.apply(Instruction::Finish) {
        Ok(Reply::Document(d)) => assert!(d == document(&html)),
        other => panic!("{:?}", other),
    }
    assert!(builder.finished());
    assert!(matches!(builder.apply(Instruction::Finish), Err(Fault::Finished)));
}

#[test]
fn nothing_is_taken_after_finish() {
    let mut package = new_package();
    let mut builder = DomBuilder::new(&mut package);
    let root = builder.get_document();
    let html = builder.create_element(name("html"), vec![attr("lang", "en")]);
    let loose = builder.create_comment("loose".to_string());
    builder.append(&root, node(&html));
    builder.append(&html, text("x"));
    builder.finish();

    let mut late = vec![
        Instruction::GetDocument,
        Instruction::CreateElement { name: name("p"), attrs: vec![attr("a", "b")] },
        Instruction::CreateComment { text: "late".to_string() },
        Instruction::Append { parent: html.clone(), child: text("y") },
        Instruction::Append { parent: html.clone(), child: node(&loose) },
        Instruction::Append { parent: root.clone(), child: node(&loose) },
        Instruction::AppendDoctypeToDocument {
            name: "html".to_string(),
            public_id: String::new(),
            system_id: String::new(),
        },
        Instruction::ElemName { target: html.clone() },
        Instruction::SetQuirksMode { mode: QuirksMode::Quirks },
        Instruction::MarkScriptAlreadyStarted { node: html.clone() },
        Instruction::Pop { node: html.clone() },
        Instruction::AssociateWithForm {
            target: html.clone(),
            form: html.clone(),
            element: html.clone(),
            prev_element: Some(root.clone()),
        },
        Instruction::SetCurrentLine { line_number: 1 },
        Instruction::CompleteScript { node: html.clone() },
        Instruction::ParseError { message: "late".to_string() },
        Instruction::Finish,
    ];
    late.extend(unsupported(&html));
    for instruction in late {
        assert!(matches!(builder.apply(instruction), Err(Fault::Finished)));
    }

    assert!(builder.finished());
    assert_eq!(root_of(document(&html)), vec!["<html>"]);
    assert_eq!(texts_of(element(&html)), vec!["x"]);
    assert_eq!(element(&html).attributes().len(), 1);
}

#[test]
fn two_builders_on_two_documents_build_alike() {
    let mut first = new_package();
    let mut second = new_package();
    let mut outlines = Vec::new();
    for package in [&mut first, &mut second] {
        let mut builder = DomBuilder::new(package);
        let root = builder.get_document();
        let html = builder.create_element(name("html"), vec![attr("lang", "en")]);
        let p = builder.create_element(name("p"), Vec::new());
        let note = builder.create_comment("note".to_string());
        builder.append(&root, node(&note));
        builder.append(&root, node(&html));
        builder.append(&html, node(&p));
        builder.append(&p, text("a"));
        builder.append(&p, text("b"));
        let doc = builder.finish();
        let mut outline = root_of(doc);
        outline.extend(texts_of(element(&html)));
        outline.extend(texts_of(element(&p)));
        outline.push(format!("{:?}", element(&html).attribute_value("lang")));
        outlines.push(outline);
    }

    assert_eq!(outlines[0], outlines[1]);
    assert_eq!(outlines[0], vec!["<!--note-->", "<html>", "<p>", "ab", "Some(\"en\")"]);
}
