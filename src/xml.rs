//! A small XML builder: elements with attributes, text and comments, and a
//! document that renders them.

use vstd::prelude::*;
use vstd::string::*;

verus! {

broadcast use vstd::seq::group_seq_axioms, vstd::std_specs::vec::group_vec_axioms;

/// Something that renders itself as XML.
pub trait XmlObject {
    /// The XML text of the object.
    spec fn xml_spec(&self) -> Seq<char>;

    /// Renders the object as XML.
    fn to_xml(&self) -> (r: String)
        ensures
            r@ == self.xml_spec(),
    ;
}

/// A `name="value"` attribute.
#[derive(Debug, Clone)]
pub struct XmlAttribute {
    name: String,
    value: String,
}

/// The XML text of an attribute.
pub open spec fn attribute_xml(name: Seq<char>, value: Seq<char>) -> Seq<char> {
    name + "=\""@ + value + "\""@
}

impl XmlAttribute {
    /// The attribute's name.
    pub closed spec fn name_spec(&self) -> Seq<char> {
        self.name@
    }

    /// The attribute's value.
    pub closed spec fn value_spec(&self) -> Seq<char> {
        self.value@
    }

    /// An attribute with the given name and value.
    pub fn new(name: &str, value: &str) -> (r: XmlAttribute)
        ensures
            r.name_spec() == name@,
            r.value_spec() == value@,
    {
        XmlAttribute { name: name.to_owned(), value: value.to_owned() }
    }

    /// The attribute's name.
    pub fn name(&self) -> (r: &str)
        ensures
            r@ == self.name_spec(),
    {
        self.name.as_str()
    }

    /// The attribute's value.
    pub fn value(&self) -> (r: &str)
        ensures
            r@ == self.value_spec(),
    {
        self.value.as_str()
    }
}

impl XmlObject for XmlAttribute {
    open spec fn xml_spec(&self) -> Seq<char> {
        attribute_xml(self.name_spec(), self.value_spec())
    }

    fn to_xml(&self) -> (r: String) {
        let mut s = self.name.clone();
        s.append("=\"");
        s.append(self.value.as_str());
        s.append("\"");
        s
    }
}

/// A text node.
#[derive(Debug, Clone)]
pub struct XmlText {
    text: String,
}

impl XmlText {
    /// The node's text.
    pub closed spec fn text_spec(&self) -> Seq<char> {
        self.text@
    }

    /// A text node with the given content.
    pub fn new(text: &str) -> (r: XmlText)
        ensures
            r.text_spec() == text@,
    {
        XmlText { text: text.to_owned() }
    }

    /// The node's text.
    pub fn text(&self) -> (r: &str)
        ensures
            r@ == self.text_spec(),
    {
        self.text.as_str()
    }
}

impl XmlObject for XmlText {
    open spec fn xml_spec(&self) -> Seq<char> {
        self.text_spec()
    }

    fn to_xml(&self) -> (r: String) {
        self.text.clone()
    }
}

/// A comment node.
#[derive(Debug, Clone)]
pub struct XmlComment {
    text: String,
}

/// The XML text of a comment.
pub open spec fn comment_xml(text: Seq<char>) -> Seq<char> {
    "<!--"@ + text + "-->"@
}

impl XmlComment {
    /// The comment's text.
    pub closed spec fn text_spec(&self) -> Seq<char> {
        self.text@
    }

    /// A comment with the given content.
    pub fn new(text: &str) -> (r: XmlComment)
        ensures
            r.text_spec() == text@,
    {
        XmlComment { text: text.to_owned() }
    }

    /// The comment's text.
    pub fn text(&self) -> (r: &str)
        ensures
            r@ == self.text_spec(),
    {
        self.text.as_str()
    }
}

impl XmlObject for XmlComment {
    open spec fn xml_spec(&self) -> Seq<char> {
        comment_xml(self.text_spec())
    }

    fn to_xml(&self) -> (r: String) {
        let mut s = "<!--".to_owned();
        s.append(self.text.as_str());
        s.append("-->");
        s
    }
}

/// A node of a document: an element, a text or a comment.
pub enum XmlNode {
    Element(XmlElement),
    Text(XmlText),
    Comment(XmlComment),
}

/// A tagged element with attributes and children.
pub struct XmlElement {
    tag: String,
    attributes: Vec<XmlAttribute>,
    children: Vec<XmlNode>,
}

/// The XML texts of attributes, separated by single spaces.
pub open spec fn attributes_xml(attrs: Seq<XmlAttribute>) -> Seq<char>
    decreases attrs.len(),
{
    if attrs.len() == 0 {
        Seq::empty()
    } else if attrs.len() == 1 {
        attrs[0].xml_spec()
    } else {
        attributes_xml(attrs.drop_last()) + " "@ + attrs.last().xml_spec()
    }
}

/// The XML text of a node.
pub open spec fn node_xml(n: XmlNode) -> Seq<char>
    decreases n,
{
    match n {
        XmlNode::Element(e) => element_xml(e),
        XmlNode::Text(t) => t.xml_spec(),
        XmlNode::Comment(c) => c.xml_spec(),
    }
}

/// The XML texts of nodes, one after the other.
pub open spec fn nodes_xml(ns: Seq<XmlNode>) -> Seq<char>
    decreases ns,
{
    if ns.len() == 0 {
        Seq::empty()
    } else {
        nodes_xml(ns.drop_last()) + node_xml(ns.last())
    }
}

/// The XML text of an element: `<tag attrs/>` without children, else
/// `<tag attrs>children</tag>`.
pub closed spec fn element_xml(e: XmlElement) -> Seq<char>
    decreases e,
{
    let head = if e.attributes@.len() == 0 {
        "<"@ + e.tag@
    } else {
        "<"@ + e.tag@ + " "@ + attributes_xml(e.attributes@)
    };
    if e.children@.len() == 0 {
        head + "/>"@
    } else {
        head + ">"@ + nodes_xml(e.children@) + "</"@ + e.tag@ + ">"@
    }
}

/// Renders a node.
fn render_node(n: &XmlNode) -> (r: String)
    ensures
        r@ == node_xml(*n),
    decreases n,
{
    match n {
        XmlNode::Element(e) => render_element(e),
        XmlNode::Text(t) => t.to_xml(),
        XmlNode::Comment(c) => c.to_xml(),
    }
}

/// Renders nodes one after the other, appending to `out`.
fn render_nodes(ns: &Vec<XmlNode>, out: &mut String)
    ensures
        final(out)@ == old(out)@ + nodes_xml(ns@),
    decreases ns@,
{
    let ghost start = out@;
    let mut i: usize = 0;
    assert(ns@.take(0) =~= Seq::<XmlNode>::empty());
    while i < ns.len()
        invariant
            i <= ns@.len(),
            out@ == start + nodes_xml(ns@.take(i as int)),
        decreases ns@.len() - i,
    {
        assert(decreases_to!(ns@ => ns@[i as int]));
        let piece = render_node(&ns[i]);
        out.append(piece.as_str());
        assert(ns@.take(i + 1).drop_last() =~= ns@.take(i as int));
        i = i + 1;
    }
    assert(ns@.take(i as int) =~= ns@);
}

/// Renders attributes separated by single spaces, appending to `out`.
fn render_attributes(attrs: &Vec<XmlAttribute>, out: &mut String)
    ensures
        final(out)@ == old(out)@ + attributes_xml(attrs@),
{
    let ghost start = out@;
    let mut i: usize = 0;
    assert(attrs@.take(0) =~= Seq::<XmlAttribute>::empty());
    while i < attrs.len()
        invariant
            i <= attrs@.len(),
            out@ == start + attributes_xml(attrs@.take(i as int)),
        decreases attrs@.len() - i,
    {
        if i > 0 {
            out.append(" ");
        }
        let piece = attrs[i].to_xml();
        out.append(piece.as_str());
        assert(attrs@.take(i + 1).drop_last() =~= attrs@.take(i as int));
        i = i + 1;
    }
    assert(attrs@.take(i as int) =~= attrs@);
}

/// Renders an element.
fn render_element(e: &XmlElement) -> (r: String)
    ensures
        r@ == element_xml(*e),
    decreases e,
{
    let mut out = "<".to_owned();
    out.append(e.tag.as_str());
    if e.attributes.len() > 0 {
        out.append(" ");
        render_attributes(&e.attributes, &mut out);
    }
    if e.children.len() == 0 {
        out.append("/>");
    } else {
        out.append(">");
        assert(decreases_to!(*e => e.children));
        render_nodes(&e.children, &mut out);
        out.append("</");
        out.append(e.tag.as_str());
        out.append(">");
    }
    out
}

impl XmlElement {
    /// The element's tag.
    pub closed spec fn tag_spec(&self) -> Seq<char> {
        self.tag@
    }

    /// The element's attributes, in order.
    pub closed spec fn attributes_spec(&self) -> Seq<XmlAttribute> {
        self.attributes@
    }

    /// The element's children, in order.
    pub closed spec fn children_spec(&self) -> Seq<XmlNode> {
        self.children@
    }

    /// An element with the given tag, no attributes and no children.
    pub fn new(tag: &str) -> (r: XmlElement)
        ensures
            r.tag_spec() == tag@,
            r.attributes_spec() == Seq::<XmlAttribute>::empty(),
            r.children_spec() == Seq::<XmlNode>::empty(),
    {
        XmlElement { tag: tag.to_owned(), attributes: Vec::new(), children: Vec::new() }
    }

    /// An element with the given tag whose one child is the given text.
    pub fn with_text(tag: &str, text: &str) -> (r: XmlElement)
        ensures
            r.tag_spec() == tag@,
            r.attributes_spec() == Seq::<XmlAttribute>::empty(),
            r.children_spec().len() == 1,
            r.children_spec()[0] matches XmlNode::Text(t) && t.text_spec() == text@,
    {
        let mut children: Vec<XmlNode> = Vec::new();
        children.push(XmlNode::Text(XmlText::new(text)));
        XmlElement { tag: tag.to_owned(), attributes: Vec::new(), children }
    }

    /// The element's tag.
    pub fn tag(&self) -> (r: &str)
        ensures
            r@ == self.tag_spec(),
    {
        self.tag.as_str()
    }

    /// Appends an attribute.
    pub fn add_attribute(&mut self, attr: XmlAttribute) -> (r: &mut XmlElement)
        ensures
            r.tag_spec() == old(self).tag_spec(),
            r.attributes_spec() == old(self).attributes_spec().push(attr),
            r.children_spec() == old(self).children_spec(),
            *final(self) == *final(r),
    {
        self.attributes.push(attr);
        self
    }

    /// Appends a child node.
    pub fn add_child(&mut self, child: XmlNode) -> (r: &mut XmlElement)
        ensures
            r.tag_spec() == old(self).tag_spec(),
            r.attributes_spec() == old(self).attributes_spec(),
            r.children_spec() == old(self).children_spec().push(child),
            *final(self) == *final(r),
    {
        self.children.push(child);
        self
    }

    /// Appends a text node.
    pub fn add_text(&mut self, text: &str) -> (r: &mut XmlElement)
        ensures
            r.tag_spec() == old(self).tag_spec(),
            r.attributes_spec() == old(self).attributes_spec(),
            r.children_spec().len() == old(self).children_spec().len() + 1,
            r.children_spec().drop_last() == old(self).children_spec(),
            r.children_spec().last() matches XmlNode::Text(t) && t.text_spec() == text@,
            *final(self) == *final(r),
    {
        self.children.push(XmlNode::Text(XmlText::new(text)));
        assert(self.children@.drop_last() =~= old(self).children@);
        self
    }

    /// Appends a comment node.
    pub fn add_comment(&mut self, text: &str) -> (r: &mut XmlElement)
        ensures
            r.tag_spec() == old(self).tag_spec(),
            r.attributes_spec() == old(self).attributes_spec(),
            r.children_spec().len() == old(self).children_spec().len() + 1,
            r.children_spec().drop_last() == old(self).children_spec(),
            r.children_spec().last() matches XmlNode::Comment(c) && c.text_spec() == text@,
            *final(self) == *final(r),
    {
        self.children.push(XmlNode::Comment(XmlComment::new(text)));
        assert(self.children@.drop_last() =~= old(self).children@);
        self
    }
}

impl XmlObject for XmlElement {
    open spec fn xml_spec(&self) -> Seq<char> {
        element_xml(*self)
    }

    fn to_xml(&self) -> (r: String) {
        render_element(self)
    }
}

impl XmlObject for XmlNode {
    open spec fn xml_spec(&self) -> Seq<char> {
        node_xml(*self)
    }

    fn to_xml(&self) -> (r: String) {
        render_node(self)
    }
}

/// The declaration that opens every document.
pub open spec fn xml_declaration() -> Seq<char> {
    "<?xml version=\"1.0\" encoding=\"UTF-8\"?>"@
}

/// An XML document: the declaration followed by its top-level nodes.
pub struct XmlDocument {
    children: Vec<XmlNode>,
}

impl XmlDocument {
    /// The document's top-level nodes, in order.
    pub closed spec fn children_spec(&self) -> Seq<XmlNode> {
        self.children@
    }

    /// An empty document.
    pub fn new() -> (r: XmlDocument)
        ensures
            r.children_spec() == Seq::<XmlNode>::empty(),
    {
        XmlDocument { children: Vec::new() }
    }

    /// Appends a top-level node.
    pub fn add_child(&mut self, child: XmlNode) -> (r: &mut XmlDocument)
        ensures
            r.children_spec() == old(self).children_spec().push(child),
            *final(self) == *final(r),
    {
        self.children.push(child);
        self
    }

    /// Appends a top-level comment.
    pub fn add_comment(&mut self, text: &str) -> (r: &mut XmlDocument)
        ensures
            r.children_spec().len() == old(self).children_spec().len() + 1,
            r.children_spec().drop_last() == old(self).children_spec(),
            r.children_spec().last() matches XmlNode::Comment(c) && c.text_spec() == text@,
            *final(self) == *final(r),
    {
        self.children.push(XmlNode::Comment(XmlComment::new(text)));
        assert(self.children@.drop_last() =~= old(self).children@);
        self
    }
}

impl XmlObject for XmlDocument {
    open spec fn xml_spec(&self) -> Seq<char> {
        xml_declaration() + nodes_xml(self.children_spec())
    }

    fn to_xml(&self) -> (r: String) {
        let mut out = "<?xml version=\"1.0\" encoding=\"UTF-8\"?>".to_owned();
        render_nodes(&self.children, &mut out);
        out
    }
}

} // verus!
