//! Paragraphs and their inline elements.

use crate::convert::IntoNode;
use vstd::prelude::*;
use vstd::std_specs::iter::IteratorSpec;

verus! {

/// The mathematical value of a [`ParagraphElement`].
pub enum ParagraphElementView {
    /// A plain string.
    Plain(Seq<char>),
    /// Bolded text.
    Bold(Box<ParagraphElementView>),
    /// Italicized text.
    Italic(Box<ParagraphElementView>),
    /// An inline mathematical expression.
    InlineMath(Seq<char>),
}

/// The various paragraph elements.
#[derive(Debug, PartialEq)]
pub enum ParagraphElement {
    /// A plain string.
    Plain(String),
    /// Bolded text.
    Bold(Box<ParagraphElement>),
    /// Italicized text.
    Italic(Box<ParagraphElement>),
    /// An inline mathematical expression.
    InlineMath(String),
}

impl View for ParagraphElement {
    type V = ParagraphElementView;

    open spec fn view(&self) -> ParagraphElementView
        decreases self,
    {
        match self {
            ParagraphElement::Plain(s) => ParagraphElementView::Plain(s@),
            ParagraphElement::Bold(e) => ParagraphElementView::Bold(Box::new((**e)@)),
            ParagraphElement::Italic(e) => ParagraphElementView::Italic(Box::new((**e)@)),
            ParagraphElement::InlineMath(s) => ParagraphElementView::InlineMath(s@),
        }
    }
}

impl Clone for ParagraphElement {
    fn clone(&self) -> (copy: ParagraphElement)
        ensures
            copy@ == self@,
        decreases self,
    {
        match self {
            ParagraphElement::Plain(s) => ParagraphElement::Plain(s.clone()),
            ParagraphElement::Bold(e) => ParagraphElement::Bold(Box::new((**e).clone())),
            ParagraphElement::Italic(e) => ParagraphElement::Italic(Box::new((**e).clone())),
            ParagraphElement::InlineMath(s) => ParagraphElement::InlineMath(s.clone()),
        }
    }
}

impl IntoNode<ParagraphElement> for ParagraphElement {
    open spec fn node_view(self) -> ParagraphElementView {
        self@
    }

    fn into_node(self) -> (node: ParagraphElement) {
        self
    }
}

impl<'a> IntoNode<ParagraphElement> for &'a str {
    open spec fn node_view(self) -> ParagraphElementView {
        ParagraphElementView::Plain(self@)
    }

    fn into_node(self) -> (node: ParagraphElement) {
        ParagraphElement::Plain(self.to_owned())
    }
}

/// The standard conversion; the node is that of [`IntoNode`].
impl<'a> From<&'a str> for ParagraphElement {
    fn from(other: &'a str) -> (element: ParagraphElement)
        ensures
            element@ == ParagraphElementView::Plain(other@),
    {
        ParagraphElement::Plain(other.to_owned())
    }
}

/// The node is fixed by its view: a contract cannot name the value
/// itself, which holds strings.
impl<'a> vstd::std_specs::convert::FromSpecImpl<&'a str> for ParagraphElement {
    open spec fn obeys_from_spec() -> bool {
        false
    }

    open spec fn from_spec(other: &'a str) -> ParagraphElement {
        arbitrary()
    }
}

impl ParagraphElement {
    /// Convenience method for wrapping a `ParagraphElement` in an italics tag.
    pub fn italic<E: IntoNode<ParagraphElement>>(elem: E) -> (wrapped: ParagraphElement)
        ensures
            wrapped@ == ParagraphElementView::Italic(Box::new(elem.node_view())),
    {
        ParagraphElement::Italic(Box::new(elem.into_node()))
    }

    /// Convenience method for wrapping a `ParagraphElement` in a bold tag.
    pub fn bold<E: IntoNode<ParagraphElement>>(elem: E) -> (wrapped: ParagraphElement)
        ensures
            wrapped@ == ParagraphElementView::Bold(Box::new(elem.node_view())),
    {
        ParagraphElement::Bold(Box::new(elem.into_node()))
    }
}

/// The mathematical value of a [`Paragraph`]: its inline elements in order.
pub struct ParagraphView {
    /// The views of the inline elements.
    pub elements: Seq<ParagraphElementView>,
}

/// A single paragraph.
#[derive(Debug, PartialEq)]
pub struct Paragraph {
    /// A list of `ParagraphElements` which make up the paragraph's contents.
    pub elements: Vec<ParagraphElement>,
}

impl View for Paragraph {
    type V = ParagraphView;

    open spec fn view(&self) -> ParagraphView {
        ParagraphView { elements: self.elements@.map_values(|e: ParagraphElement| e@) }
    }
}

impl Clone for Paragraph {
    fn clone(&self) -> (copy: Paragraph)
        ensures
            copy@ == self@,
    {
        let mut elements: Vec<ParagraphElement> = Vec::new();
        let mut i: usize = 0;
        while i < self.elements.len()
            invariant
                i <= self.elements.len(),
                elements@.len() == i,
                forall|j: int| 0 <= j < i ==> (#[trigger] elements@[j])@ == self.elements@[j]@,
            decreases self.elements.len() - i,
        {
            elements.push(self.elements[i].clone());
            i += 1;
        }
        let copy = Paragraph { elements };
        assert(copy@.elements =~= self@.elements);
        copy
    }
}

impl Default for Paragraph {
    fn default() -> (p: Paragraph)
        ensures
            p@.elements == Seq::<ParagraphElementView>::empty(),
    {
        Paragraph::new()
    }
}

impl Paragraph {
    /// Create a new paragraph.
    pub fn new() -> (p: Paragraph)
        ensures
            p@.elements == Seq::<ParagraphElementView>::empty(),
    {
        Paragraph { elements: Vec::new() }
    }

    /// Add a `ParagraphElement` to the `Paragraph`.
    pub fn push<P: IntoNode<ParagraphElement>>(&mut self, elem: P) -> (ret: &mut Self)
        ensures
            ret@.elements == old(self)@.elements.push(elem.node_view()),
            *final(self) == *final(ret),
    {
        self.elements.push(elem.into_node());
        self
    }

    /// Add some raw text to the paragraph.
    pub fn push_text(&mut self, text: &str) -> (ret: &mut Self)
        ensures
            ret@.elements == old(self)@.elements.push(ParagraphElementView::Plain(text@)),
            *final(self) == *final(ret),
    {
        self.push(ParagraphElement::Plain(text.to_owned()))
    }

    /// Iterate over the `ParagraphElement`s in this `Paragraph`, in order.
    pub fn iter(&self) -> (it: std::slice::Iter<'_, ParagraphElement>)
        ensures
            it.remaining().len() == self@.elements.len(),
            forall|i: int|
                0 <= i < self@.elements.len() ==> (#[trigger] it.remaining()[i])@
                    == self@.elements[i],
    {
        self.elements.iter()
    }
}

impl<'a> IntoNode<Paragraph> for &'a str {
    open spec fn node_view(self) -> ParagraphView {
        ParagraphView { elements: seq![ParagraphElementView::Plain(self@)] }
    }

    fn into_node(self) -> (node: Paragraph) {
        let mut para = Paragraph::new();
        para.push_text(self);
        para
    }
}

/// The standard conversion; the node is that of [`IntoNode`].
impl<'a> From<&'a str> for Paragraph {
    fn from(other: &'a str) -> (node: Paragraph)
        ensures
            node@ == <&str as IntoNode<Paragraph>>::node_view(other),
    {
        other.into_node()
    }
}

/// The node is fixed by its view: a contract cannot name the value
/// itself, which holds strings.
impl<'a> vstd::std_specs::convert::FromSpecImpl<&'a str> for Paragraph {
    open spec fn obeys_from_spec() -> bool {
        false
    }

    open spec fn from_spec(other: &'a str) -> Paragraph {
        arbitrary()
    }
}

} // verus!
