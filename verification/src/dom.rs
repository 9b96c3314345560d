//! A tree model of an HTML document.

use crate::outside::lowercase;
use crate::outside::to_lowercase;
use std::collections::HashMap;
use vstd::prelude::*;

verus! {

/// The kind of an HTML element.
#[derive(Debug, Clone, PartialEq, Eq, Hash)]
pub enum ElementType {
    Html,
    Head,
    Title,
    Body,
    Div,
    Span,
    P,
    A,
    Img,
    Script,
    Style,
    /// Any other element, under its name as written.
    Custom(String),
}

/// `ElementType` with a custom name as text.
pub enum ElementKind {
    Html,
    Head,
    Title,
    Body,
    Div,
    Span,
    P,
    A,
    Img,
    Script,
    Style,
    Custom(Seq<char>),
}

impl View for ElementType {
    type V = ElementKind;

    open spec fn view(&self) -> ElementKind {
        match self {
            ElementType::Html => ElementKind::Html,
            ElementType::Head => ElementKind::Head,
            ElementType::Title => ElementKind::Title,
            ElementType::Body => ElementKind::Body,
            ElementType::Div => ElementKind::Div,
            ElementType::Span => ElementKind::Span,
            ElementType::P => ElementKind::P,
            ElementType::A => ElementKind::A,
            ElementType::Img => ElementKind::Img,
            ElementType::Script => ElementKind::Script,
            ElementType::Style => ElementKind::Style,
            ElementType::Custom(name) => ElementKind::Custom(name@),
        }
    }
}

/// The kind of the element whose tag is `name` and reads `lowered` in
/// lower case: a known kind where `lowered` is its name, else a custom one
/// that keeps `name` as written.
pub open spec fn element_kind(lowered: Seq<char>, name: Seq<char>) -> ElementKind {
    if lowered == "html"@ {
        ElementKind::Html
    } else if lowered == "head"@ {
        ElementKind::Head
    } else if lowered == "title"@ {
        ElementKind::Title
    } else if lowered == "body"@ {
        ElementKind::Body
    } else if lowered == "div"@ {
        ElementKind::Div
    } else if lowered == "span"@ {
        ElementKind::Span
    } else if lowered == "p"@ {
        ElementKind::P
    } else if lowered == "a"@ {
        ElementKind::A
    } else if lowered == "img"@ {
        ElementKind::Img
    } else if lowered == "script"@ {
        ElementKind::Script
    } else if lowered == "style"@ {
        ElementKind::Style
    } else {
        ElementKind::Custom(name)
    }
}

/// Whether `name` reads `word`.
fn reads(name: &String, word: &str) -> (r: bool)
    ensures
        r == (name@ == word@),
{
    *name == String::from_str(word)
}

impl ElementType {
    /// The kind of the element with the given tag name, whatever its case.
    pub fn from_str(s: &str) -> (kind: ElementType)
        ensures
            kind@ == element_kind(lowercase(s@), s@),
    {
        let lowered = to_lowercase(s);
        ElementType::from_lowercase(lowered.as_str(), s)
    }

    /// The kind of the element whose tag is `name`, given `name` in lower
    /// case.
    pub fn from_lowercase(lowered: &str, name: &str) -> (kind: ElementType)
        ensures
            kind@ == element_kind(lowered@, name@),
    {
        let lowered = String::from_str(lowered);
        if reads(&lowered, "html") {
            ElementType::Html
        } else if reads(&lowered, "head") {
            ElementType::Head
        } else if reads(&lowered, "title") {
            ElementType::Title
        } else if reads(&lowered, "body") {
            ElementType::Body
        } else if reads(&lowered, "div") {
            ElementType::Div
        } else if reads(&lowered, "span") {
            ElementType::Span
        } else if reads(&lowered, "p") {
            ElementType::P
        } else if reads(&lowered, "a") {
            ElementType::A
        } else if reads(&lowered, "img") {
            ElementType::Img
        } else if reads(&lowered, "script") {
            ElementType::Script
        } else if reads(&lowered, "style") {
            ElementType::Style
        } else {
            ElementType::Custom(String::from_str(name))
        }
    }
}

/// A document type declaration.
#[derive(Debug, Clone, PartialEq)]
pub enum DoctypeType {
    /// `<!DOCTYPE html>`
    Html5,
    Html4Strict,
    Html4Transitional,
    Html4Frameset,
    Xhtml10Strict,
    Xhtml10Transitional,
    Xhtml10Frameset,
    Xhtml11,
    /// Any other declaration, as written.
    Custom(String),
}

/// `DoctypeType` with a custom declaration as text.
pub enum DoctypeKind {
    Html5,
    Html4Strict,
    Html4Transitional,
    Html4Frameset,
    Xhtml10Strict,
    Xhtml10Transitional,
    Xhtml10Frameset,
    Xhtml11,
    Custom(Seq<char>),
}

impl View for DoctypeType {
    type V = DoctypeKind;

    open spec fn view(&self) -> DoctypeKind {
        match self {
            DoctypeType::Html5 => DoctypeKind::Html5,
            DoctypeType::Html4Strict => DoctypeKind::Html4Strict,
            DoctypeType::Html4Transitional => DoctypeKind::Html4Transitional,
            DoctypeType::Html4Frameset => DoctypeKind::Html4Frameset,
            DoctypeType::Xhtml10Strict => DoctypeKind::Xhtml10Strict,
            DoctypeType::Xhtml10Transitional => DoctypeKind::Xhtml10Transitional,
            DoctypeType::Xhtml10Frameset => DoctypeKind::Xhtml10Frameset,
            DoctypeType::Xhtml11 => DoctypeKind::Xhtml11,
            DoctypeType::Custom(declaration) => DoctypeKind::Custom(declaration@),
        }
    }
}

/// The document type that `declaration` names and that reads `lowered` in
/// lower case: HTML5 for `html`, else a custom one that keeps `declaration`
/// as written.
pub open spec fn doctype_kind(lowered: Seq<char>, declaration: Seq<char>) -> DoctypeKind {
    if lowered == "html"@ {
        DoctypeKind::Html5
    } else {
        DoctypeKind::Custom(declaration)
    }
}

impl DoctypeType {
    /// The document type that the given declaration names, whatever its
    /// case.
    pub fn from_str(s: &str) -> (doctype: DoctypeType)
        ensures
            doctype@ == doctype_kind(lowercase(s@), s@),
    {
        let lowered = to_lowercase(s);
        DoctypeType::from_lowercase(lowered.as_str(), s)
    }

    /// The document type that `declaration` names, given `declaration` in
    /// lower case.
    pub fn from_lowercase(lowered: &str, declaration: &str) -> (doctype: DoctypeType)
        ensures
            doctype@ == doctype_kind(lowered@, declaration@),
    {
        let lowered = String::from_str(lowered);
        if reads(&lowered, "html") {
            DoctypeType::Html5
        } else {
            DoctypeType::Custom(String::from_str(declaration))
        }
    }
}

/// A node of the document tree.
#[derive(Debug)]
pub enum Node {
    Element(Element),
    Text(String),
    Comment(String),
    Doctype(DoctypeType),
}

/// An element: its kind, its attributes, and its children in document
/// order.
#[derive(Debug)]
pub struct Element {
    pub element_type: ElementType,
    pub attributes: HashMap<String, String>,
    pub children: Vec<Node>,
}

impl Node {
    /// Whether this node is the `html` element.
    pub open spec fn is_html_element(self) -> bool {
        self matches Node::Element(element) && element.element_type is Html
    }

    /// An element of the given kind without attributes or children.
    pub fn new_element(tag_name: ElementType) -> (node: Node)
        ensures
            node matches Node::Element(element) && element.element_type == tag_name
                && element.attributes@ == Map::<String, String>::empty() && element.children@
                == Seq::<Node>::empty(),
    {
        Node::Element(
            Element { element_type: tag_name, attributes: HashMap::new(), children: Vec::new() },
        )
    }

    /// A text node that holds `content`.
    pub fn new_text(content: &str) -> (node: Node)
        ensures
            node matches Node::Text(text) && text@ == content@,
    {
        Node::Text(String::from_str(content))
    }

    /// A comment node that holds `content`.
    pub fn new_comment(content: &str) -> (node: Node)
        ensures
            node matches Node::Comment(text) && text@ == content@,
    {
        Node::Comment(String::from_str(content))
    }

    /// A document type node.
    pub fn new_doctype(doctype: DoctypeType) -> (node: Node)
        ensures
            node == Node::Doctype(doctype),
    {
        Node::Doctype(doctype)
    }
}

/// A whole document: its top-level nodes in document order.
#[derive(Debug)]
pub struct Document {
    pub nodes: Vec<Node>,
}

impl Document {
    /// `index` is where the first `html` element among the top-level nodes
    /// stands.
    pub open spec fn is_html_position(self, index: int) -> bool {
        &&& 0 <= index < self.nodes@.len()
        &&& self.nodes@[index].is_html_element()
        &&& forall|j: int| 0 <= j < index ==> !(#[trigger] self.nodes@[j]).is_html_element()
    }

    /// A document without nodes.
    pub fn new() -> (document: Document)
        ensures
            document.nodes@ == Seq::<Node>::empty(),
    {
        Document { nodes: Vec::new() }
    }

    /// Appends `node` to the top-level nodes.
    pub fn add_node(&mut self, node: Node)
        ensures
            final(self).nodes@ == old(self).nodes@.push(node),
    {
        self.nodes.push(node);
    }

    /// The first `html` element among the top-level nodes, if there is one.
    pub fn html_element(&self) -> (r: Option<&Element>)
        ensures
            match r {
                Some(element) => exists|index: int|
                    self.is_html_position(index) && self.nodes@[index] == Node::Element(*element),
                None => forall|j: int|
                    0 <= j < self.nodes@.len() ==> !(#[trigger] self.nodes@[j]).is_html_element(),
            },
    {
        let mut i: usize = 0;
        while i < self.nodes.len()
            invariant
                i <= self.nodes.len(),
                forall|j: int| 0 <= j < i ==> !(#[trigger] self.nodes@[j]).is_html_element(),
            decreases self.nodes.len() - i,
        {
            if let Node::Element(element) = &self.nodes[i] {
                if let ElementType::Html = element.element_type {
                    assert(self.is_html_position(i as int));
                    return Some(element);
                }
            }
            i = i + 1;
        }
        None
    }
}

} // verus!
