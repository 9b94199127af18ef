//! The nodes of a document's body: elements and sections.

use crate::convert::IntoNode;
use crate::equations::{Align, AlignView};
use crate::lists::{List, ListView};
use crate::paragraph::{Paragraph, ParagraphElementView, ParagraphView};
use crate::table::{Table, TableView};
use vstd::prelude::*;
use vstd::std_specs::iter::IteratorSpec;

verus! {

/// The mathematical value of an [`Element`].
pub enum ElementView {
    /// A bare paragraph.
    Para(ParagraphView),
    /// A section.
    Section(SectionView),
    /// The table of contents.
    TableOfContents,
    /// The title page.
    TitlePage,
    /// Clear the page.
    ClearPage,
    /// An `align` environment.
    Align(AlignView),
    /// A generic environment: its name and its lines.
    Environment(Seq<char>, Seq<Seq<char>>),
    /// A raw line.
    UserDefined(Seq<char>),
    /// A list.
    List(ListView),
    /// A table.
    Table(TableView),
    /// An include statement: the path.
    Input(Seq<char>),
}

/// The mathematical value of a [`Section`].
pub struct SectionView {
    /// The name of the section.
    pub name: Seq<char>,
    /// The views of the elements, in order.
    pub elements: Seq<ElementView>,
}

/// The major elements in a `Document`, representing each type of possible
/// node.
#[derive(Debug, PartialEq)]
pub enum Element {
    /// A bare paragraph.
    Para(Paragraph),
    /// A section.
    Section(Section),
    /// The table of contents.
    TableOfContents,
    /// The title page.
    TitlePage,
    /// Clear the page.
    ClearPage,
    /// An `align` environment for containing a bunch of equations.
    Align(Align),
    /// A generic environment and its lines. The lines are rendered as they
    /// are.
    Environment(String, Vec<String>),
    /// Any other element: the raw string is rendered unchanged.
    UserDefined(String),
    /// A list.
    List(List),
    /// A Table.
    Table(Table),
    /// A generic include statement
    Input(String),
}

/// A document Section: a name and a collection of `Element`s.
#[derive(Debug, PartialEq)]
pub struct Section {
    /// The name of the section.
    pub name: String,
    /// The elements of the section, in order.
    pub elements: Vec<Element>,
}

impl View for Element {
    type V = ElementView;

    open spec fn view(&self) -> ElementView
        decreases self,
    {
        match self {
            Element::Para(p) => ElementView::Para(p@),
            Element::Section(s) => ElementView::Section(s@),
            Element::TableOfContents => ElementView::TableOfContents,
            Element::TitlePage => ElementView::TitlePage,
            Element::ClearPage => ElementView::ClearPage,
            Element::Align(a) => ElementView::Align(a@),
            Element::Environment(name, lines) => ElementView::Environment(
                name@,
                lines@.map_values(|line: String| line@),
            ),
            Element::UserDefined(s) => ElementView::UserDefined(s@),
            Element::List(l) => ElementView::List(l@),
            Element::Table(t) => ElementView::Table(t@),
            Element::Input(s) => ElementView::Input(s@),
        }
    }
}

impl View for Section {
    type V = SectionView;

    open spec fn view(&self) -> SectionView
        decreases self,
    {
        SectionView {
            name: self.name@,
            elements: Seq::new(
                self.elements@.len(),
                |i: int|
                    if 0 <= i < self.elements@.len() {
                        self.elements@[i]@
                    } else {
                        arbitrary()
                    },
            ),
        }
    }
}

/// A copy of a vector of strings.
fn clone_lines(lines: &Vec<String>) -> (copy: Vec<String>)
    ensures
        copy@.map_values(|line: String| line@) == lines@.map_values(|line: String| line@),
{
    let mut copy: Vec<String> = Vec::new();
    let mut i: usize = 0;
    while i < lines.len()
        invariant
            i <= lines.len(),
            copy@.len() == i,
            forall|j: int| 0 <= j < i ==> (#[trigger] copy@[j])@ == lines@[j]@,
        decreases lines.len() - i,
    {
        copy.push(lines[i].clone());
        i += 1;
    }
    assert(copy@.map_values(|line: String| line@) =~= lines@.map_values(|line: String| line@));
    copy
}

impl Clone for Element {
    fn clone(&self) -> (copy: Element)
        ensures
            copy@ == self@,
        decreases self,
    {
        match self {
            Element::Para(p) => Element::Para(p.clone()),
            Element::Section(s) => Element::Section(s.clone()),
            Element::TableOfContents => Element::TableOfContents,
            Element::TitlePage => Element::TitlePage,
            Element::ClearPage => Element::ClearPage,
            Element::Align(a) => Element::Align(a.clone()),
            Element::Environment(name, lines) => Element::Environment(
                name.clone(),
                clone_lines(lines),
            ),
            Element::UserDefined(s) => Element::UserDefined(s.clone()),
            Element::List(l) => Element::List(l.clone()),
            Element::Table(t) => Element::Table(t.clone()),
            Element::Input(s) => Element::Input(s.clone()),
        }
    }
}

impl Clone for Section {
    fn clone(&self) -> (copy: Section)
        ensures
            copy@ == self@,
        decreases self,
    {
        let mut elements: Vec<Element> = Vec::new();
        let mut i: usize = 0;
        while i < self.elements.len()
            invariant
                i <= self.elements.len(),
                elements@.len() == i,
                forall|j: int| 0 <= j < i ==> (#[trigger] elements@[j])@ == self.elements@[j]@,
            decreases self.elements.len() - i,
        {
            elements.push(self.elements[i].clone());
            i += 1;
        }
        let copy = Section { name: self.name.clone(), elements };
        assert(copy@.elements =~= self@.elements);
        copy
    }
}

impl IntoNode<Element> for Element {
    open spec fn node_view(self) -> ElementView {
        self@
    }

    fn into_node(self) -> (node: Element) {
        self
    }
}

impl IntoNode<Element> for Paragraph {
    open spec fn node_view(self) -> ElementView {
        ElementView::Para(self@)
    }

    fn into_node(self) -> (node: Element) {
        Element::Para(self)
    }
}

impl<'a> IntoNode<Element> for &'a str {
    open spec fn node_view(self) -> ElementView {
        ElementView::Para(ParagraphView { elements: seq![ParagraphElementView::Plain(self@)] })
    }

    fn into_node(self) -> (node: Element) {
        let para: Paragraph = self.into_node();
        Element::Para(para)
    }
}

impl IntoNode<Element> for List {
    open spec fn node_view(self) -> ElementView {
        ElementView::List(self@)
    }

    fn into_node(self) -> (node: Element) {
        Element::List(self)
    }
}

impl IntoNode<Element> for Align {
    open spec fn node_view(self) -> ElementView {
        ElementView::Align(self@)
    }

    fn into_node(self) -> (node: Element) {
        Element::Align(self)
    }
}

impl IntoNode<Element> for Section {
    open spec fn node_view(self) -> ElementView {
        ElementView::Section(self@)
    }

    fn into_node(self) -> (node: Element) {
        Element::Section(self)
    }
}

impl IntoNode<Element> for Table {
    open spec fn node_view(self) -> ElementView {
        ElementView::Table(self@)
    }

    fn into_node(self) -> (node: Element) {
        Element::Table(self)
    }
}

/// A name and a list of lines become a generic environment.
impl<'a, 'b> IntoNode<Element> for (&'a str, Vec<&'b str>) {
    open spec fn node_view(self) -> ElementView {
        ElementView::Environment(self.0@, self.1@.map_values(|line: &str| line@))
    }

    fn into_node(self) -> (node: Element) {
        let (name, lines) = self;
        let mut owned: Vec<String> = Vec::new();
        let mut i: usize = 0;
        while i < lines.len()
            invariant
                i <= lines.len(),
                owned@.len() == i,
                forall|j: int| 0 <= j < i ==> (#[trigger] owned@[j])@ == lines@[j]@,
            decreases lines.len() - i,
        {
            owned.push(lines[i].to_owned());
            i += 1;
        }
        assert(owned@.map_values(|line: String| line@) =~= lines@.map_values(|line: &str| line@));
        Element::Environment(name.to_owned(), owned)
    }
}

/// The standard conversion; the node is that of [`IntoNode`].
impl From<Paragraph> for Element {
    fn from(other: Paragraph) -> (node: Element)
        ensures
            node@ == ElementView::Para(other@),
    {
        Element::Para(other)
    }
}

/// The node is the variant around the value.
impl vstd::std_specs::convert::FromSpecImpl<Paragraph> for Element {
    open spec fn obeys_from_spec() -> bool {
        true
    }

    open spec fn from_spec(other: Paragraph) -> Element {
        Element::Para(other)
    }
}

/// The standard conversion; the node is that of [`IntoNode`].
impl<'a> From<&'a str> for Element {
    fn from(other: &'a str) -> (node: Element)
        ensures
            node@ == <&str as IntoNode<Element>>::node_view(other),
    {
        other.into_node()
    }
}

/// The node is fixed by its view: a contract cannot name the value
/// itself, which holds strings.
impl<'a> vstd::std_specs::convert::FromSpecImpl<&'a str> for Element {
    open spec fn obeys_from_spec() -> bool {
        false
    }

    open spec fn from_spec(other: &'a str) -> Element {
        arbitrary()
    }
}

/// The standard conversion; the node is that of [`IntoNode`].
impl From<List> for Element {
    fn from(other: List) -> (node: Element)
        ensures
            node@ == ElementView::List(other@),
    {
        Element::List(other)
    }
}

/// The node is the variant around the value.
impl vstd::std_specs::convert::FromSpecImpl<List> for Element {
    open spec fn obeys_from_spec() -> bool {
        true
    }

    open spec fn from_spec(other: List) -> Element {
        Element::List(other)
    }
}

/// The standard conversion; the node is that of [`IntoNode`].
impl From<Align> for Element {
    fn from(other: Align) -> (node: Element)
        ensures
            node@ == ElementView::Align(other@),
    {
        Element::Align(other)
    }
}

/// The node is the variant around the value.
impl vstd::std_specs::convert::FromSpecImpl<Align> for Element {
    open spec fn obeys_from_spec() -> bool {
        true
    }

    open spec fn from_spec(other: Align) -> Element {
        Element::Align(other)
    }
}

/// The standard conversion; the node is that of [`IntoNode`].
impl From<Section> for Element {
    fn from(other: Section) -> (node: Element)
        ensures
            node@ == ElementView::Section(other@),
    {
        Element::Section(other)
    }
}

/// The node is the variant around the value.
impl vstd::std_specs::convert::FromSpecImpl<Section> for Element {
    open spec fn obeys_from_spec() -> bool {
        true
    }

    open spec fn from_spec(other: Section) -> Element {
        Element::Section(other)
    }
}

/// The standard conversion; the node is that of [`IntoNode`].
impl From<Table> for Element {
    fn from(other: Table) -> (node: Element)
        ensures
            node@ == ElementView::Table(other@),
    {
        Element::Table(other)
    }
}

/// The node is the variant around the value.
impl vstd::std_specs::convert::FromSpecImpl<Table> for Element {
    open spec fn obeys_from_spec() -> bool {
        true
    }

    open spec fn from_spec(other: Table) -> Element {
        Element::Table(other)
    }
}

impl Default for Section {
    fn default() -> (section: Section)
        ensures
            section@.name == Seq::<char>::empty(),
            section@.elements == Seq::<ElementView>::empty(),
    {
        Section { name: String::new(), elements: Vec::new() }
    }
}

impl Section {
    /// Create a new section with the specified name and no elements.
    pub fn new(name: &str) -> (section: Section)
        ensures
            section@.name == name@,
            section@.elements == Seq::<ElementView>::empty(),
    {
        Section { name: name.to_owned(), elements: Vec::new() }
    }

    /// Add an element to the Section.
    pub fn push<I: IntoNode<Element>>(&mut self, element: I) -> (ret: &mut Self)
        ensures
            ret@.name == old(self)@.name,
            ret@.elements == old(self)@.elements.push(element.node_view()),
            *final(self) == *final(ret),
    {
        self.elements.push(element.into_node());
        self
    }

    /// Iterate over the elements in this section, in order.
    pub fn iter(&self) -> (it: std::slice::Iter<'_, Element>)
        ensures
            it.remaining().len() == self@.elements.len(),
            forall|i: int|
                0 <= i < self@.elements.len() ==> (#[trigger] it.remaining()[i])@
                    == self@.elements[i],
    {
        self.elements.iter()
    }

    /// Is this section empty?
    pub fn is_empty(&self) -> (empty: bool)
        ensures
            empty == (self@.elements.len() == 0),
    {
        self.elements.is_empty()
    }
}

} // verus!
