use smarthome::xml::{XmlAttribute, XmlComment, XmlDocument, XmlElement, XmlNode, XmlObject, XmlText};

#[test]
fn attributes_test() {
    let attr = XmlAttribute::new("key", "value");
    assert_eq!(attr.to_xml(), "key=\"value\"");
    assert_eq!(attr.to_xml(), "key=\"value\"");
}

#[test]
fn attribute_accessors() {
    let attr = XmlAttribute::new("id", "42");
    assert_eq!(attr.name(), "id");
    assert_eq!(attr.value(), "42");
}

#[test]
fn empty_element_is_self_closing() {
    let e = XmlElement::new("br");
    assert_eq!(e.tag(), "br");
    assert_eq!(e.to_xml(), "<br/>");
}

#[test]
fn element_with_attributes_and_children() {
    let mut e = XmlElement::new("article");
    e.add_attribute(XmlAttribute::new("id", "1"))
        .add_attribute(XmlAttribute::new("lang", "en"));
    e.add_child(XmlNode::Element(XmlElement::with_text("title", "Hello")));
    e.add_text("body");
    e.add_comment("note");
    assert_eq!(
        e.to_xml(),
        "<article id=\"1\" lang=\"en\"><title>Hello</title>body<!--note--></article>"
    );
}

#[test]
fn text_and_comment_nodes() {
    let t = XmlText::new("plain");
    assert_eq!(t.text(), "plain");
    assert_eq!(t.to_xml(), "plain");
    let c = XmlComment::new("hidden");
    assert_eq!(c.text(), "hidden");
    assert_eq!(c.to_xml(), "<!--hidden-->");
}

#[test]
fn document_rendering() {
    let mut doc = XmlDocument::new();
    assert_eq!(doc.to_xml(), "<?xml version=\"1.0\" encoding=\"UTF-8\"?>");
    doc.add_comment("generated");
    doc.add_child(XmlNode::Element(XmlElement::new("root")));
    assert_eq!(
        doc.to_xml(),
        "<?xml version=\"1.0\" encoding=\"UTF-8\"?><!--generated--><root/>"
    );
}
