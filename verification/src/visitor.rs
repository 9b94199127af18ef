//! A trait which lets you walk your document's tree.

use crate::document::{Document, DocumentClass, DocumentView, Preamble, PreambleView};
use crate::element::{Element, ElementView, Section, SectionView};
use crate::equations::{Align, AlignView, Equation, EquationView};
use crate::lists::{Item, List, ListView};
use crate::paragraph::{Paragraph, ParagraphElement, ParagraphElementView, ParagraphView};
use crate::table::{Table, TableView};
use vstd::prelude::*;

verus! {

/// Why a visit failed.
#[derive(Clone, Copy, Debug, PartialEq, Eq, Structural)]
pub enum Error {
    /// The output sink rejected a write.
    Io,
    /// The bytes that were written are not valid UTF-8.
    Utf8,
}

/// What a `visit_*` method is handed, by its view.
pub enum Node {
    /// A document, for `visit_document`.
    Document(DocumentView),
    /// A preamble, for `visit_preamble`.
    Preamble(PreambleView),
    /// An element, for `visit_element`.
    Element(ElementView),
    /// A paragraph, for `visit_paragraph`.
    Paragraph(ParagraphView),
    /// An inline element, for `visit_paragraph_element`.
    ParagraphElement(ParagraphElementView),
    /// A section, for `visit_section`.
    Section(SectionView),
    /// An `align` block, for `visit_align`.
    Align(AlignView),
    /// An equation, for `visit_equation`.
    Equation(EquationView),
    /// A list, for `visit_list`.
    List(ListView),
    /// The text of a list item, for `visit_list_item`.
    ListItem(Seq<char>),
    /// A table, for `visit_table`.
    Table(TableView),
    /// The name and the lines of an environment, for
    /// `visit_custom_environment`.
    Environment(Seq<char>, Seq<Seq<char>>),
    /// A raw line, for `visit_user_defined_line`.
    UserDefinedLine(Seq<char>),
    /// A path, for `visit_input`.
    Input(Seq<char>),
}

/// The visit did nothing: it succeeded and left the visitor as it was.
pub open spec fn kept<V>(before: V, after: V, r: Result<(), Error>) -> bool {
    r is Ok && after == before
}

/// What a visit of a node without children does: nothing, which is the
/// default, or what the visitor says of its own method.
pub open spec fn visits_leaf<V>(
    visited: spec_fn(V, Node, V, Result<(), Error>) -> bool,
    before: V,
    node: Node,
    after: V,
    r: Result<(), Error>,
) -> bool {
    kept(before, after, r) || visited(before, node, after, r)
}

/// The children that the default method for a paragraph, an `align` block
/// or a list visits, in order.
pub open spec fn children_of(node: Node) -> Seq<Node> {
    match node {
        Node::Paragraph(paragraph) => paragraph.elements.map_values(
            |e: ParagraphElementView| Node::ParagraphElement(e),
        ),
        Node::Align(align) => align.items.map_values(|e: EquationView| Node::Equation(e)),
        Node::List(list) => list.items.map_values(|item: Seq<char>| Node::ListItem(item)),
        _ => Seq::empty(),
    }
}

/// The result of visit `i` out of `visits` that end in `r`: every visit
/// but the last succeeded, and the last one gave `r`.
pub open spec fn result_of_visit(i: int, visits: int, r: Result<(), Error>) -> Result<(), Error> {
    if i == visits - 1 {
        r
    } else {
        Ok(())
    }
}

/// `states` has the shape of the record of a walk over `children` nodes
/// that led from `before` to `after` with the result `r`: the state before
/// the first visit, and then the state after each visit that was made. Where
/// the result is `Ok`, every child was visited; where it is an error, at
/// least one was, and the walk ended with it.
pub open spec fn walk_recorded<V>(
    before: V,
    children: nat,
    states: Seq<V>,
    after: V,
    r: Result<(), Error>,
) -> bool {
    let visits = states.len() - 1;
    &&& 0 <= visits <= children
    &&& states[0] == before
    &&& states[visits] == after
    &&& r is Ok ==> visits == children
    &&& r is Err ==> visits > 0
}

/// The result of visit `i` in a walk that `states` records and that ends in
/// `r`: the last visit gave `r`, every visit before it succeeded.
pub open spec fn visit_result<V>(states: Seq<V>, i: int, r: Result<(), Error>) -> Result<
    (),
    Error,
> {
    if i + 2 == states.len() {
        r
    } else {
        Ok(())
    }
}

/// `states` records a walk over `nodes`, which have no children: the
/// state before the first visit, and then the state after each visit that
/// was made. The nodes are visited in order, each visit starts in the state
/// that the one before it left, and the walk ends with the first visit that
/// fails: no node behind it is visited, and its error is the result. Where
/// none fails, every node is visited and the result is `Ok`.
pub open spec fn leaves_walked_through<V>(
    visited: spec_fn(V, Node, V, Result<(), Error>) -> bool,
    before: V,
    nodes: Seq<Node>,
    states: Seq<V>,
    after: V,
    r: Result<(), Error>,
) -> bool {
    let visits = states.len() - 1;
    &&& 0 <= visits <= nodes.len()
    &&& states[0] == before
    &&& states[visits] == after
    &&& r is Ok ==> visits == nodes.len()
    &&& r is Err ==> visits > 0
    &&& forall|i: int|
        0 <= i < visits ==> visits_leaf(
            visited,
            #[trigger] states[i],
            nodes[i],
            states[i + 1],
            result_of_visit(i, visits, r),
        )
}

/// A walk over nodes without children led from `before` to `after` with
/// the result `r`.
pub open spec fn leaves_walked<V>(
    visited: spec_fn(V, Node, V, Result<(), Error>) -> bool,
    before: V,
    nodes: Seq<Node>,
    after: V,
    r: Result<(), Error>,
) -> bool {
    exists|states: Seq<V>| leaves_walked_through(visited, before, nodes, states, after, r)
}

/// What a visit of a paragraph, an `align` block or a list does: a walk
/// over its children, which is the default, or what the visitor says of its
/// own method.
pub open spec fn visits_children<V>(
    visited: spec_fn(V, Node, V, Result<(), Error>) -> bool,
    before: V,
    node: Node,
    after: V,
    r: Result<(), Error>,
) -> bool {
    leaves_walked(visited, before, children_of(node), after, r) || visited(
        before,
        node,
        after,
        r,
    )
}

/// What the default `visit_element` does: it hands the element to the
/// method for its kind. The table of contents, the title page and a page
/// break have no method and are passed over.
pub open spec fn dispatched<V>(
    visited: spec_fn(V, Node, V, Result<(), Error>) -> bool,
    before: V,
    element: ElementView,
    after: V,
    r: Result<(), Error>,
) -> bool
    decreases element, 0nat,
{
    match element {
        ElementView::Para(p) => visits_children(visited, before, Node::Paragraph(p), after, r),
        ElementView::Section(s) => visits_section(visited, before, s, after, r),
        ElementView::UserDefined(line) => visits_leaf(
            visited,
            before,
            Node::UserDefinedLine(line),
            after,
            r,
        ),
        ElementView::Align(a) => visits_children(visited, before, Node::Align(a), after, r),
        ElementView::Environment(name, lines) => visits_leaf(
            visited,
            before,
            Node::Environment(name, lines),
            after,
            r,
        ),
        ElementView::List(l) => visits_children(visited, before, Node::List(l), after, r),
        ElementView::Table(t) => visits_leaf(visited, before, Node::Table(t), after, r),
        ElementView::Input(path) => visits_leaf(visited, before, Node::Input(path), after, r),
        ElementView::TableOfContents => kept(before, after, r),
        ElementView::TitlePage => kept(before, after, r),
        ElementView::ClearPage => kept(before, after, r),
    }
}

/// What a visit of a section does: a walk over its elements, which is what
/// [`walk_section`] does, or what the visitor says of its own method.
pub open spec fn visits_section<V>(
    visited: spec_fn(V, Node, V, Result<(), Error>) -> bool,
    before: V,
    section: SectionView,
    after: V,
    r: Result<(), Error>,
) -> bool
    decreases section,
{
    (exists|states: Seq<V>|
        0 < #[trigger] states.len() && elements_walked_through(
            visited,
            before,
            section.elements,
            states,
            after,
            r,
        )) || visited(
        before,
        Node::Section(section),
        after,
        r,
    )
}

/// What a visit of an element does: the default, or what the visitor says
/// of its own method.
pub open spec fn visits_element<V>(
    visited: spec_fn(V, Node, V, Result<(), Error>) -> bool,
    before: V,
    element: ElementView,
    after: V,
    r: Result<(), Error>,
) -> bool
    decreases element, 1nat,
{
    dispatched(visited, before, element, after, r) || visited(
        before,
        Node::Element(element),
        after,
        r,
    )
}

/// `states` records a walk over `elements`: as [`leaves_walked_through`],
/// with a visit of an element in place of a visit of a node without
/// children.
pub open spec fn elements_walked_through<V>(
    visited: spec_fn(V, Node, V, Result<(), Error>) -> bool,
    before: V,
    elements: Seq<ElementView>,
    states: Seq<V>,
    after: V,
    r: Result<(), Error>,
) -> bool
    decreases elements, 0nat,
{
    let visits = states.len() - 1;
    &&& 0 <= visits <= elements.len()
    &&& states[0] == before
    &&& states[visits] == after
    &&& r is Ok ==> visits == elements.len()
    &&& r is Err ==> visits > 0
    &&& forall|i: int|
        0 <= i < visits && 0 <= i < elements.len() ==> visits_element(
            visited,
            #[trigger] states[i],
            elements[i],
            states[i + 1],
            result_of_visit(i, visits, r),
        )
}

/// A walk over elements led from `before` to `after` with the result `r`.
pub open spec fn elements_walked<V>(
    visited: spec_fn(V, Node, V, Result<(), Error>) -> bool,
    before: V,
    elements: Seq<ElementView>,
    after: V,
    r: Result<(), Error>,
) -> bool {
    exists|states: Seq<V>| elements_walked_through(visited, before, elements, states, after, r)
}

/// What the default `visit_document` does. Of a partial document it walks
/// over the elements. Of any other it visits the preamble first; where that
/// fails the visit ends with its error, else the walk over the elements
/// follows.
pub open spec fn document_walked<V>(
    visited: spec_fn(V, Node, V, Result<(), Error>) -> bool,
    before: V,
    doc: DocumentView,
    after: V,
    r: Result<(), Error>,
) -> bool {
    if doc.class is Part {
        elements_walked(visited, before, doc.elements, after, r)
    } else {
        exists|between: V, first: Result<(), Error>|
            #[trigger] visits_leaf(visited, before, Node::Preamble(doc.preamble), between, first)
                && if first is Err {
                after == between && r == first
            } else {
                elements_walked(visited, between, doc.elements, after, r)
            }
    }
}


/// A trait which uses the visitor pattern to visit each node in a
/// `Document`, depth first and in document order.
///
/// Every method but [`Visitor::visit_section`] has a default: the methods
/// for nodes with children visit the children in order and stop at the
/// first error, the others do nothing. An implementer overrides the kinds
/// it cares about. `visit_section` has no default because a section holds
/// elements, which may be sections again: [`walk_section`] is the body to
/// give it where nothing else is wanted.
///
/// The contract of each method says that a visit does what the default
/// does, or what [`Visitor::visited`] says: an implementer states there what
/// its own methods do. For `visit_section` the walk over the section's
/// elements stands in place of a default.
///
/// The contract of each default with children says besides which calls it
/// makes: on which node, from which state of the visitor, and with which
/// result. So an implementer that overrides the method for a child learns
/// from a default that its own method ran.
pub trait Visitor: Sized {
    /// What the methods that this visitor gives a body of its own do: a
    /// visit of `node` that started in the state `before` may end in the
    /// state `after` with the result `r`. A visitor that keeps every default
    /// need not say anything here.
    open spec fn visited(before: Self, node: Node, after: Self, r: Result<(), Error>) -> bool {
        false
    }

    /// Visit the root `Document` node: the preamble, unless the document is
    /// partial, and then each element of the `Document`, up to the first
    /// visit that fails.
    fn visit_document(&mut self, doc: &Document) -> (r: Result<(), Error>)
        ensures
            document_walked(
                |b: Self, n: Node, a: Self, r: Result<(), Error>| Self::visited(b, n, a, r),
                *old(self),
                doc@,
                *final(self),
                r,
            ) || Self::visited(*old(self), Node::Document(doc@), *final(self), r),
        default_ensures
            document_walked(
                |b: Self, n: Node, a: Self, r: Result<(), Error>| Self::visited(b, n, a, r),
                *old(self),
                doc@,
                *final(self),
                r,
            ),
            doc@.class is Part ==> (
                exists|states: Seq<Self>|
                    #[trigger] walk_recorded(
                        *old(self),
                        doc.elements@.len(),
                        states,
                        *final(self),
                        r,
                    ) && forall|i: int|
                        #![trigger visit_result(states, i, r)]
                        0 <= i < states.len() - 1 ==> exists|m: &mut Self|
                            *m == states[i] && *final(m) == states[i + 1]
                                && #[trigger] call_ensures(
                                Self::visit_element,
                                (m, &doc.elements@[i]),
                                visit_result(states, i, r),
                            )),
            !(doc@.class is Part) ==> exists|p: &mut Self, first: Result<(), Error>|
                *p == *old(self) && #[trigger] call_ensures(
                    Self::visit_preamble,
                    (p, &doc.preamble),
                    first,
                ) && if first is Err {
                    *final(self) == *final(p) && r == first
                } else {
                    exists|states: Seq<Self>|
                        #[trigger] walk_recorded(
                            *final(p),
                            doc.elements@.len(),
                            states,
                            *final(self),
                            r,
                        ) && forall|i: int|
                            #![trigger visit_result(states, i, r)]
                            0 <= i < states.len() - 1 ==> exists|m: &mut Self|
                                *m == states[i] && *final(m) == states[i + 1]
                                    && #[trigger] call_ensures(
                                    Self::visit_element,
                                    (m, &doc.elements@[i]),
                                    visit_result(states, i, r),
                                )
                },
    {
        let ghost visited = |b: Self, n: Node, a: Self, r: Result<(), Error>|
            Self::visited(b, n, a, r);
        match doc.class {
            DocumentClass::Part => {},
            _ => {
                let first = self.visit_preamble(&doc.preamble);
                match first {
                    Err(e) => {
                        return Err(e);
                    },
                    Ok(u) => {
                        assert(u == ());
                    },
                }
            },
        }
        let ghost start = *self;
        let ghost mut states = seq![start];
        assert(!(doc@.class is Part) ==> visits_leaf(
            visited,
            *old(self),
            Node::Preamble(doc@.preamble),
            start,
            Ok(()),
        ));
        let mut i: usize = 0;
        while i < doc.elements.len()
            invariant
                i <= doc.elements.len(),
                doc@.elements.len() == doc.elements.len(),
                forall|j: int|
                    0 <= j < doc.elements.len() ==> #[trigger] doc@.elements[j]
                        == doc.elements@[j]@,
                doc@.class is Part ==> start == *old(self),
                !(doc@.class is Part) ==> visits_leaf(
                    visited,
                    *old(self),
                    Node::Preamble(doc@.preamble),
                    start,
                    Ok(()),
                ),
                !(doc@.class is Part) ==> exists|m: &mut Self|
                    *m == *old(self) && *final(m) == start && #[trigger] call_ensures(
                        Self::visit_preamble,
                        (m, &doc.preamble),
                        Ok(()),
                    ),
                visited == |b: Self, n: Node, a: Self, r: Result<(), Error>|
                    Self::visited(b, n, a, r),
                states.len() == i + 1,
                states[0] == start,
                states[i as int] == *self,
                forall|j: int|
                    0 <= j < i ==> visits_element(
                        visited,
                        #[trigger] states[j],
                        doc@.elements[j],
                        states[j + 1],
                        Ok(()),
                    ),
                forall|j: int|
                    #![trigger visit_result(states, j, Ok(()))]
                    0 <= j < i ==> exists|m: &mut Self|
                        *m == states[j] && *final(m) == states[j + 1]
                            && #[trigger] call_ensures(
                            Self::visit_element,
                            (m, &doc.elements@[j]),
                            visit_result(states, j, Ok(())),
                        ),
            decreases doc.elements.len() - i,
        {
            let ghost earlier = states;
            let r = self.visit_element(&doc.elements[i]);
            proof {
                states = states.push(*self);
                assert(visits_element(
                    visited,
                    states[i as int],
                    doc@.elements[i as int],
                    states[i + 1],
                    r,
                ));
                assert forall|j: int|
                    #![trigger visit_result(states, j, r)]
                    0 <= j < i + 1 implies exists|m: &mut Self|
                        *m == states[j] && *final(m) == states[j + 1]
                            && #[trigger] call_ensures(
                            Self::visit_element,
                            (m, &doc.elements@[j]),
                            visit_result(states, j, r),
                        ) by {
                    if j < i {
                        assert(visit_result(earlier, j, Ok(())) == visit_result(states, j, r));
                    }
                }
            }
            match r {
                Err(e) => {
                    proof {
                        assert(elements_walked_through(
                            visited,
                            start,
                            doc@.elements,
                            states,
                            *self,
                            r,
                        ));
                        assert(walk_recorded(start, doc.elements@.len(), states, *self, r));
                    }
                    return Err(e);
                },
                Ok(u) => {
                    assert(u == ());
                    assert forall|j: int|
                        #![trigger visit_result(states, j, Ok(()))]
                        0 <= j < i + 1 implies exists|m: &mut Self|
                            *m == states[j] && *final(m) == states[j + 1]
                                && #[trigger] call_ensures(
                                Self::visit_element,
                                (m, &doc.elements@[j]),
                                visit_result(states, j, Ok(())),
                            ) by {
                        assert(visit_result(states, j, r) == visit_result(states, j, Ok(())));
                    }
                },
            }
            i += 1;
        }
        proof {
            assert(elements_walked_through(visited, start, doc@.elements, states, *self, Ok(())));
            assert(walk_recorded(start, doc.elements@.len(), states, *self, Ok(())));
        }
        Ok(())
    }

    /// Visit a single `Element` node, dispatching to the more specific
    /// `visit_*()` methods. The table of contents, the title page and a
    /// page break have no method of their own and are passed over.
    fn visit_element(&mut self, elem: &Element) -> (r: Result<(), Error>)
        ensures
            visits_element(
                |b: Self, n: Node, a: Self, r: Result<(), Error>| Self::visited(b, n, a, r),
                *old(self),
                elem@,
                *final(self),
                r,
            ),
        default_ensures
            dispatched(
                |b: Self, n: Node, a: Self, r: Result<(), Error>| Self::visited(b, n, a, r),
                *old(self),
                elem@,
                *final(self),
                r,
            ),
            elem matches Element::Para(paragraph) ==> exists|m: &mut Self|
                *m == *old(self) && *final(m) == *final(self) && #[trigger] call_ensures(
                    Self::visit_paragraph,
                    (m, &paragraph),
                    r,
                ),
            elem matches Element::Section(section) ==> exists|m: &mut Self|
                *m == *old(self) && *final(m) == *final(self) && #[trigger] call_ensures(
                    Self::visit_section,
                    (m, &section),
                    r,
                ),
            elem matches Element::Align(align) ==> exists|m: &mut Self|
                *m == *old(self) && *final(m) == *final(self) && #[trigger] call_ensures(
                    Self::visit_align,
                    (m, &align),
                    r,
                ),
            elem matches Element::List(list) ==> exists|m: &mut Self|
                *m == *old(self) && *final(m) == *final(self) && #[trigger] call_ensures(
                    Self::visit_list,
                    (m, &list),
                    r,
                ),
            elem matches Element::Table(table) ==> exists|m: &mut Self|
                *m == *old(self) && *final(m) == *final(self) && #[trigger] call_ensures(
                    Self::visit_table,
                    (m, &table),
                    r,
                ),
            elem matches Element::UserDefined(line) ==> exists|m: &mut Self, text: &str|
                text@ == line@ && *m == *old(self) && *final(m) == *final(self)
                    && #[trigger] call_ensures(Self::visit_user_defined_line, (m, text), r),
            elem matches Element::Input(path) ==> exists|m: &mut Self, text: &str|
                text@ == path@ && *m == *old(self) && *final(m) == *final(self)
                    && #[trigger] call_ensures(Self::visit_input, (m, text), r),
            elem matches Element::Environment(name, lines) ==> exists|
                m: &mut Self,
                environment: &str,
                content: &[String],
            |
                environment@ == name@ && content@ == lines@ && *m == *old(self) && *final(m)
                    == *final(self) && #[trigger] call_ensures(
                    Self::visit_custom_environment,
                    (m, environment, content),
                    r,
                ),
    {
        match elem {
            Element::Para(p) => self.visit_paragraph(p),
            Element::Section(s) => self.visit_section(s),
            Element::UserDefined(s) => self.visit_user_defined_line(s.as_str()),
            Element::Align(equations) => self.visit_align(equations),
            Element::Environment(name, lines) => self.visit_custom_environment(
                name.as_str(),
                lines.as_slice(),
            ),
            Element::List(list) => self.visit_list(list),
            Element::Table(table) => self.visit_table(table),
            Element::Input(s) => self.visit_input(s.as_str()),
            Element::TableOfContents => Ok(()),
            Element::TitlePage => Ok(()),
            Element::ClearPage => Ok(()),
        }
    }

    /// Visit a document's `Preamble`.
    fn visit_preamble(&mut self, preamble: &Preamble) -> (r: Result<(), Error>)
        ensures
            visits_leaf(
                |b: Self, n: Node, a: Self, r: Result<(), Error>| Self::visited(b, n, a, r),
                *old(self),
                Node::Preamble(preamble@),
                *final(self),
                r,
            ),
        default_ensures
            kept(*old(self), *final(self), r),
    {
        Ok(())
    }

    /// Visit an element in a `Paragraph` (e.g. `Italic`, `InlineMath`).
    fn visit_paragraph_element(&mut self, element: &ParagraphElement) -> (r: Result<(), Error>)
        ensures
            visits_leaf(
                |b: Self, n: Node, a: Self, r: Result<(), Error>| Self::visited(b, n, a, r),
                *old(self),
                Node::ParagraphElement(element@),
                *final(self),
                r,
            ),
        default_ensures
            kept(*old(self), *final(self), r),
    {
        Ok(())
    }

    /// Visit a user defined line.
    fn visit_user_defined_line(&mut self, line: &str) -> (r: Result<(), Error>)
        ensures
            visits_leaf(
                |b: Self, n: Node, a: Self, r: Result<(), Error>| Self::visited(b, n, a, r),
                *old(self),
                Node::UserDefinedLine(line@),
                *final(self),
                r,
            ),
        default_ensures
            kept(*old(self), *final(self), r),
    {
        Ok(())
    }

    /// Visit a input element.
    fn visit_input(&mut self, input: &str) -> (r: Result<(), Error>)
        ensures
            visits_leaf(
                |b: Self, n: Node, a: Self, r: Result<(), Error>| Self::visited(b, n, a, r),
                *old(self),
                Node::Input(input@),
                *final(self),
                r,
            ),
        default_ensures
            kept(*old(self), *final(self), r),
    {
        Ok(())
    }

    /// Visit a paragraph, and every `ParagraphElement` in it, up to the
    /// first visit that fails.
    fn visit_paragraph(&mut self, paragraph: &Paragraph) -> (r: Result<(), Error>)
        ensures
            visits_children(
                |b: Self, n: Node, a: Self, r: Result<(), Error>| Self::visited(b, n, a, r),
                *old(self),
                Node::Paragraph(paragraph@),
                *final(self),
                r,
            ),
        default_ensures
            leaves_walked(
                |b: Self, n: Node, a: Self, r: Result<(), Error>| Self::visited(b, n, a, r),
                *old(self),
                children_of(Node::Paragraph(paragraph@)),
                *final(self),
                r,
            ),
            exists|states: Seq<Self>|
                #[trigger] walk_recorded(
                    *old(self),
                    paragraph.elements@.len(),
                    states,
                    *final(self),
                    r,
                ) && forall|i: int|
                    #![trigger visit_result(states, i, r)]
                    0 <= i < states.len() - 1 ==> exists|m: &mut Self|
                        *m == states[i] && *final(m) == states[i + 1]
                            && #[trigger] call_ensures(
                            Self::visit_paragraph_element,
                            (m, &paragraph.elements@[i]),
                            visit_result(states, i, r),
                        ),
    {
        let ghost visited = |b: Self, n: Node, a: Self, r: Result<(), Error>|
            Self::visited(b, n, a, r);
        let ghost nodes = children_of(Node::Paragraph(paragraph@));
        let ghost mut states = seq![*self];
        let mut i: usize = 0;
        while i < paragraph.elements.len()
            invariant
                i <= paragraph.elements.len(),
                nodes == children_of(Node::Paragraph(paragraph@)),
                nodes.len() == paragraph.elements.len(),
                paragraph.elements@.len() == paragraph.elements.len(),
                forall|j: int|
                    0 <= j < nodes.len() ==> #[trigger] nodes[j]
                        == Node::ParagraphElement(paragraph.elements@[j]@),
                visited == |b: Self, n: Node, a: Self, r: Result<(), Error>|
                    Self::visited(b, n, a, r),
                states.len() == i + 1,
                states[0] == *old(self),
                states[i as int] == *self,
                forall|j: int|
                    0 <= j < i ==> visits_leaf(
                        visited,
                        #[trigger] states[j],
                        nodes[j],
                        states[j + 1],
                        Ok(()),
                    ),
                forall|j: int|
                    #![trigger visit_result(states, j, Ok(()))]
                    0 <= j < i ==> exists|m: &mut Self|
                        *m == states[j] && *final(m) == states[j + 1]
                            && #[trigger] call_ensures(
                            Self::visit_paragraph_element,
                            (m, &paragraph.elements@[j]),
                            visit_result(states, j, Ok(())),
                        ),
            decreases paragraph.elements.len() - i,
        {
            let ghost earlier = states;
            let r = self.visit_paragraph_element(&paragraph.elements[i]);
            proof {
                states = states.push(*self);
                assert(visits_leaf(
                    visited,
                    states[i as int],
                    nodes[i as int],
                    states[i + 1],
                    r,
                ));
                assert forall|j: int|
                    #![trigger visit_result(states, j, r)]
                    0 <= j < i + 1 implies exists|m: &mut Self|
                        *m == states[j] && *final(m) == states[j + 1]
                            && #[trigger] call_ensures(
                            Self::visit_paragraph_element,
                            (m, &paragraph.elements@[j]),
                            visit_result(states, j, r),
                        ) by {
                    if j < i {
                        assert(visit_result(earlier, j, Ok(())) == visit_result(states, j, r));
                    }
                }
            }
            match r {
                Err(e) => {
                    proof {
                        assert(leaves_walked_through(visited, *old(self), nodes, states, *self, r));
                        assert(walk_recorded(
                            *old(self),
                            paragraph.elements@.len(),
                            states,
                            *self,
                            r,
                        ));
                    }
                    return Err(e);
                },
                Ok(u) => {
                    assert(u == ());
                    assert forall|j: int|
                        #![trigger visit_result(states, j, Ok(()))]
                        0 <= j < i + 1 implies exists|m: &mut Self|
                            *m == states[j] && *final(m) == states[j + 1]
                                && #[trigger] call_ensures(
                                Self::visit_paragraph_element,
                                (m, &paragraph.elements@[j]),
                                visit_result(states, j, Ok(())),
                            ) by {
                        assert(visit_result(states, j, r) == visit_result(states, j, Ok(())));
                    }
                },
            }
            i += 1;
        }
        proof {
            assert(leaves_walked_through(visited, *old(self), nodes, states, *self, Ok(())));
            assert(walk_recorded(*old(self), paragraph.elements@.len(), states, *self, Ok(())));
        }
        Ok(())
    }

    /// Visit a `Section`. To visit each of its `Element`s in turn, call
    /// [`walk_section`].
    fn visit_section(&mut self, section: &Section) -> (r: Result<(), Error>)
        ensures
            visits_section(
                |b: Self, n: Node, a: Self, r: Result<(), Error>| Self::visited(b, n, a, r),
                *old(self),
                section@,
                *final(self),
                r,
            ),
    ;

    /// Visit an `Align` block and then each equation in the block, up to
    /// the first visit that fails.
    fn visit_align(&mut self, align: &Align) -> (r: Result<(), Error>)
        ensures
            visits_children(
                |b: Self, n: Node, a: Self, r: Result<(), Error>| Self::visited(b, n, a, r),
                *old(self),
                Node::Align(align@),
                *final(self),
                r,
            ),
        default_ensures
            leaves_walked(
                |b: Self, n: Node, a: Self, r: Result<(), Error>| Self::visited(b, n, a, r),
                *old(self),
                children_of(Node::Align(align@)),
                *final(self),
                r,
            ),
            exists|states: Seq<Self>|
                #[trigger] walk_recorded(
                    *old(self),
                    align@.items.len(),
                    states,
                    *final(self),
                    r,
                ) && forall|i: int|
                    #![trigger visit_result(states, i, r)]
                    0 <= i < states.len() - 1 ==> exists|m: &mut Self, equation: &Equation|
                        equation@ == align@.items[i] && *m == states[i]
                            && *final(m) == states[i + 1]
                            && #[trigger] call_ensures(
                            Self::visit_equation,
                            (m, equation),
                            visit_result(states, i, r),
                        ),
    {
        let ghost visited = |b: Self, n: Node, a: Self, r: Result<(), Error>|
            Self::visited(b, n, a, r);
        let ghost nodes = children_of(Node::Align(align@));
        let ghost mut states = seq![*self];
        let items = align.as_slice();
        let mut i: usize = 0;
        while i < items.len()
            invariant
                i <= items.len(),
                nodes == children_of(Node::Align(align@)),
                nodes.len() == items.len(),
                align@.items.len() == items.len(),
                forall|j: int|
                    0 <= j < nodes.len() ==> #[trigger] nodes[j] == Node::Equation(items@[j]@),
                forall|j: int|
                    0 <= j < items@.len() ==> (#[trigger] items@[j])@ == align@.items[j],
                visited == |b: Self, n: Node, a: Self, r: Result<(), Error>|
                    Self::visited(b, n, a, r),
                states.len() == i + 1,
                states[0] == *old(self),
                states[i as int] == *self,
                forall|j: int|
                    0 <= j < i ==> visits_leaf(
                        visited,
                        #[trigger] states[j],
                        nodes[j],
                        states[j + 1],
                        Ok(()),
                    ),
                forall|j: int|
                    #![trigger visit_result(states, j, Ok(()))]
                    0 <= j < i ==> exists|m: &mut Self, equation: &Equation|
                        equation@ == align@.items[j] && *m == states[j]
                            && *final(m) == states[j + 1]
                            && #[trigger] call_ensures(
                            Self::visit_equation,
                            (m, equation),
                            visit_result(states, j, Ok(())),
                        ),
            decreases items.len() - i,
        {
            let ghost earlier = states;
            let r = self.visit_equation(&items[i]);
            proof {
                states = states.push(*self);
                assert(visits_leaf(
                    visited,
                    states[i as int],
                    nodes[i as int],
                    states[i + 1],
                    r,
                ));
                assert forall|j: int|
                    #![trigger visit_result(states, j, r)]
                    0 <= j < i + 1 implies exists|m: &mut Self, equation: &Equation|
                        equation@ == align@.items[j] && *m == states[j]
                            && *final(m) == states[j + 1]
                            && #[trigger] call_ensures(
                            Self::visit_equation,
                            (m, equation),
                            visit_result(states, j, r),
                        ) by {
                    if j < i {
                        assert(visit_result(earlier, j, Ok(())) == visit_result(states, j, r));
                    }
                }
            }
            match r {
                Err(e) => {
                    proof {
                        assert(leaves_walked_through(visited, *old(self), nodes, states, *self, r));
                        assert(walk_recorded(*old(self), align@.items.len(), states, *self, r));
                    }
                    return Err(e);
                },
                Ok(u) => {
                    assert(u == ());
                    assert forall|j: int|
                        #![trigger visit_result(states, j, Ok(()))]
                        0 <= j < i + 1 implies exists|m: &mut Self, equation: &Equation|
                            equation@ == align@.items[j] && *m == states[j]
                                && *final(m) == states[j + 1]
                                && #[trigger] call_ensures(
                                Self::visit_equation,
                                (m, equation),
                                visit_result(states, j, Ok(())),
                            ) by {
                        assert(visit_result(states, j, r) == visit_result(states, j, Ok(())));
                    }
                },
            }
            i += 1;
        }
        proof {
            assert(leaves_walked_through(visited, *old(self), nodes, states, *self, Ok(())));
            assert(walk_recorded(*old(self), align@.items.len(), states, *self, Ok(())));
        }
        Ok(())
    }

    /// Visit a single `Equation`.
    fn visit_equation(&mut self, equation: &Equation) -> (r: Result<(), Error>)
        ensures
            visits_leaf(
                |b: Self, n: Node, a: Self, r: Result<(), Error>| Self::visited(b, n, a, r),
                *old(self),
                Node::Equation(equation@),
                *final(self),
                r,
            ),
        default_ensures
            kept(*old(self), *final(self), r),
    {
        Ok(())
    }

    /// Visit a `List` and all of its items, up to the first visit that
    /// fails.
    fn visit_list(&mut self, list: &List) -> (r: Result<(), Error>)
        ensures
            visits_children(
                |b: Self, n: Node, a: Self, r: Result<(), Error>| Self::visited(b, n, a, r),
                *old(self),
                Node::List(list@),
                *final(self),
                r,
            ),
        default_ensures
            leaves_walked(
                |b: Self, n: Node, a: Self, r: Result<(), Error>| Self::visited(b, n, a, r),
                *old(self),
                children_of(Node::List(list@)),
                *final(self),
                r,
            ),
            exists|states: Seq<Self>|
                #[trigger] walk_recorded(
                    *old(self),
                    list.items@.len(),
                    states,
                    *final(self),
                    r,
                ) && forall|i: int|
                    #![trigger visit_result(states, i, r)]
                    0 <= i < states.len() - 1 ==> exists|m: &mut Self|
                        *m == states[i] && *final(m) == states[i + 1]
                            && #[trigger] call_ensures(
                            Self::visit_list_item,
                            (m, &list.items@[i]),
                            visit_result(states, i, r),
                        ),
    {
        let ghost visited = |b: Self, n: Node, a: Self, r: Result<(), Error>|
            Self::visited(b, n, a, r);
        let ghost nodes = children_of(Node::List(list@));
        let ghost mut states = seq![*self];
        let mut i: usize = 0;
        while i < list.items.len()
            invariant
                i <= list.items.len(),
                nodes == children_of(Node::List(list@)),
                nodes.len() == list.items.len(),
                list.items@.len() == list.items.len(),
                forall|j: int|
                    0 <= j < nodes.len() ==> #[trigger] nodes[j] == Node::ListItem(list.items@[j]@),
                visited == |b: Self, n: Node, a: Self, r: Result<(), Error>|
                    Self::visited(b, n, a, r),
                states.len() == i + 1,
                states[0] == *old(self),
                states[i as int] == *self,
                forall|j: int|
                    0 <= j < i ==> visits_leaf(
                        visited,
                        #[trigger] states[j],
                        nodes[j],
                        states[j + 1],
                        Ok(()),
                    ),
                forall|j: int|
                    #![trigger visit_result(states, j, Ok(()))]
                    0 <= j < i ==> exists|m: &mut Self|
                        *m == states[j] && *final(m) == states[j + 1]
                            && #[trigger] call_ensures(
                            Self::visit_list_item,
                            (m, &list.items@[j]),
                            visit_result(states, j, Ok(())),
                        ),
            decreases list.items.len() - i,
        {
            let ghost earlier = states;
            let r = self.visit_list_item(&list.items[i]);
            proof {
                states = states.push(*self);
                assert(visits_leaf(
                    visited,
                    states[i as int],
                    nodes[i as int],
                    states[i + 1],
                    r,
                ));
                assert forall|j: int|
                    #![trigger visit_result(states, j, r)]
                    0 <= j < i + 1 implies exists|m: &mut Self|
                        *m == states[j] && *final(m) == states[j + 1]
                            && #[trigger] call_ensures(
                            Self::visit_list_item,
                            (m, &list.items@[j]),
                            visit_result(states, j, r),
                        ) by {
                    if j < i {
                        assert(visit_result(earlier, j, Ok(())) == visit_result(states, j, r));
                    }
                }
            }
            match r {
                Err(e) => {
                    proof {
                        assert(leaves_walked_through(visited, *old(self), nodes, states, *self, r));
                        assert(walk_recorded(*old(self), list.items@.len(), states, *self, r));
                    }
                    return Err(e);
                },
                Ok(u) => {
                    assert(u == ());
                    assert forall|j: int|
                        #![trigger visit_result(states, j, Ok(()))]
                        0 <= j < i + 1 implies exists|m: &mut Self|
                            *m == states[j] && *final(m) == states[j + 1]
                                && #[trigger] call_ensures(
                                Self::visit_list_item,
                                (m, &list.items@[j]),
                                visit_result(states, j, Ok(())),
                            ) by {
                        assert(visit_result(states, j, r) == visit_result(states, j, Ok(())));
                    }
                },
            }
            i += 1;
        }
        proof {
            assert(leaves_walked_through(visited, *old(self), nodes, states, *self, Ok(())));
            assert(walk_recorded(*old(self), list.items@.len(), states, *self, Ok(())));
        }
        Ok(())
    }

    /// Visit a single list item.
    fn visit_list_item(&mut self, item: &Item) -> (r: Result<(), Error>)
        ensures
            visits_leaf(
                |b: Self, n: Node, a: Self, r: Result<(), Error>| Self::visited(b, n, a, r),
                *old(self),
                Node::ListItem(item@),
                *final(self),
                r,
            ),
        default_ensures
            kept(*old(self), *final(self), r),
    {
        Ok(())
    }

    /// Visit a `Table`.
    fn visit_table(&mut self, table: &Table) -> (r: Result<(), Error>)
        ensures
            visits_leaf(
                |b: Self, n: Node, a: Self, r: Result<(), Error>| Self::visited(b, n, a, r),
                *old(self),
                Node::Table(table@),
                *final(self),
                r,
            ),
        default_ensures
            kept(*old(self), *final(self), r),
    {
        Ok(())
    }

    /// Visit an arbitrary environment and receive its lines.
    fn visit_custom_environment(&mut self, name: &str, lines: &[String]) -> (r: Result<(), Error>)
        ensures
            visits_leaf(
                |b: Self, n: Node, a: Self, r: Result<(), Error>| Self::visited(b, n, a, r),
                *old(self),
                Node::Environment(name@, lines@.map_values(|line: String| line@)),
                *final(self),
                r,
            ),
        default_ensures
            kept(*old(self), *final(self), r),
    {
        Ok(())
    }
}

/// Visit each element of a section in order, and stop at the first visit
/// that fails.
pub fn walk_section<V: Visitor>(visitor: &mut V, section: &Section) -> (r: Result<(), Error>)
    ensures
        elements_walked(
            |b: V, n: Node, a: V, r: Result<(), Error>| V::visited(b, n, a, r),
            *old(visitor),
            section@.elements,
            *final(visitor),
            r,
        ),
        exists|states: Seq<V>|
            #[trigger] walk_recorded(
                *old(visitor),
                section.elements@.len(),
                states,
                *final(visitor),
                r,
            ) && forall|i: int|
                #![trigger visit_result(states, i, r)]
                0 <= i < states.len() - 1 ==> exists|m: &mut V|
                    *m == states[i] && *final(m) == states[i + 1]
                        && #[trigger] call_ensures(
                        V::visit_element,
                        (m, &section.elements@[i]),
                        visit_result(states, i, r),
                    ),
{
    let ghost visited = |b: V, n: Node, a: V, r: Result<(), Error>| V::visited(b, n, a, r);
    let ghost start = *visitor;
    let ghost mut states = seq![start];
    let mut i: usize = 0;
    while i < section.elements.len()
        invariant
            i <= section.elements.len(),
            section@.elements.len() == section.elements.len(),
            forall|j: int|
                0 <= j < section.elements.len() ==> #[trigger] section@.elements[j]
                    == section.elements@[j]@,
            start == *old(visitor),
            visited == |b: V, n: Node, a: V, r: Result<(), Error>| V::visited(b, n, a, r),
            states.len() == i + 1,
            states[0] == start,
            states[i as int] == *visitor,
            forall|j: int|
                0 <= j < i ==> visits_element(
                    visited,
                    #[trigger] states[j],
                    section@.elements[j],
                    states[j + 1],
                    Ok(()),
                ),
            forall|j: int|
                #![trigger visit_result(states, j, Ok(()))]
                0 <= j < i ==> exists|m: &mut V|
                    *m == states[j] && *final(m) == states[j + 1]
                        && #[trigger] call_ensures(
                        V::visit_element,
                        (m, &section.elements@[j]),
                        visit_result(states, j, Ok(())),
                    ),
        decreases section.elements.len() - i,
    {
        let ghost earlier = states;
        let r = visitor.visit_element(&section.elements[i]);
        proof {
            states = states.push(*visitor);
            assert(visits_element(
                visited,
                states[i as int],
                section@.elements[i as int],
                states[i + 1],
                r,
            ));
            assert forall|j: int|
                #![trigger visit_result(states, j, r)]
                0 <= j < i + 1 implies exists|m: &mut V|
                    *m == states[j] && *final(m) == states[j + 1]
                        && #[trigger] call_ensures(
                        V::visit_element,
                        (m, &section.elements@[j]),
                        visit_result(states, j, r),
                    ) by {
                if j < i {
                    assert(visit_result(earlier, j, Ok(())) == visit_result(states, j, r));
                }
            }
        }
        match r {
            Err(e) => {
                proof {
                    assert(elements_walked_through(
                        visited,
                        start,
                        section@.elements,
                        states,
                        *visitor,
                        r,
                    ));
                    assert(walk_recorded(start, section.elements@.len(), states, *visitor, r));
                }
                return Err(e);
            },
            Ok(u) => {
                assert(u == ());
                assert forall|j: int|
                    #![trigger visit_result(states, j, Ok(()))]
                    0 <= j < i + 1 implies exists|m: &mut V|
                        *m == states[j] && *final(m) == states[j + 1]
                            && #[trigger] call_ensures(
                            V::visit_element,
                            (m, &section.elements@[j]),
                            visit_result(states, j, Ok(())),
                        ) by {
                    assert(visit_result(states, j, r) == visit_result(states, j, Ok(())));
                }
            },
        }
        i += 1;
    }
    proof {
        assert(elements_walked_through(
            visited,
            start,
            section@.elements,
            states,
            *visitor,
            Ok(()),
        ));
        assert(walk_recorded(start, section.elements@.len(), states, *visitor, Ok(())));
    }
    Ok(())
}

} // verus!
