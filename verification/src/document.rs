//! The root of the tree: the document, its class and its preamble.

use crate::convert::IntoNode;
use crate::element::{Element, ElementView};
use vstd::prelude::*;
use vstd::std_specs::iter::IteratorSpec;

verus! {

/// The view of an optional string.
pub open spec fn option_text(text: Option<String>) -> Option<Seq<char>> {
    match text {
        Some(t) => Some(t@),
        None => None,
    }
}

/// A copy of an optional string.
fn clone_option(text: &Option<String>) -> (copy: Option<String>)
    ensures
        option_text(copy) == option_text(*text),
{
    match text {
        Some(t) => Some(t.clone()),
        None => None,
    }
}

/// The mathematical value of a [`DocumentClass`].
pub enum DocumentClassView {
    /// An article.
    Article,
    /// A book.
    Book,
    /// A report.
    Report,
    /// A partial document.
    Part,
    /// Another class, by its name.
    Other(Seq<char>),
}

impl DocumentClassView {
    /// The name of the class as it stands in the class declaration. A
    /// partial document has the empty name.
    pub open spec fn name(self) -> Seq<char> {
        match self {
            DocumentClassView::Article => "article"@,
            DocumentClassView::Book => "book"@,
            DocumentClassView::Report => "report"@,
            DocumentClassView::Part => ""@,
            DocumentClassView::Other(name) => name,
        }
    }
}

/// The kind of Document being generated.
#[derive(Debug, PartialEq)]
pub enum DocumentClass {
    /// An article.
    Article,
    /// A book.
    Book,
    /// A report.
    Report,
    /// A partial document comes without header and footer.
    /// It is intended to be included (`include{}`) in some other tex file.
    Part,
    /// Another class, by its name.
    Other(String),
}

impl View for DocumentClass {
    type V = DocumentClassView;

    open spec fn view(&self) -> DocumentClassView {
        match self {
            DocumentClass::Article => DocumentClassView::Article,
            DocumentClass::Book => DocumentClassView::Book,
            DocumentClass::Report => DocumentClassView::Report,
            DocumentClass::Part => DocumentClassView::Part,
            DocumentClass::Other(name) => DocumentClassView::Other(name@),
        }
    }
}

impl Clone for DocumentClass {
    fn clone(&self) -> (copy: DocumentClass)
        ensures
            copy@ == self@,
    {
        match self {
            DocumentClass::Article => DocumentClass::Article,
            DocumentClass::Book => DocumentClass::Book,
            DocumentClass::Report => DocumentClass::Report,
            DocumentClass::Part => DocumentClass::Part,
            DocumentClass::Other(name) => DocumentClass::Other(name.clone()),
        }
    }
}

impl Default for DocumentClass {
    fn default() -> (class: DocumentClass)
        ensures
            class@ == DocumentClassView::Article,
    {
        DocumentClass::Article
    }
}

impl DocumentClass {
    /// The name of the class as it stands in the class declaration.
    pub fn to_string(&self) -> (name: String)
        ensures
            name@ == self@.name(),
    {
        match self {
            DocumentClass::Article => "article".to_owned(),
            DocumentClass::Book => "book".to_owned(),
            DocumentClass::Report => "report".to_owned(),
            DocumentClass::Part => "".to_owned(),
            DocumentClass::Other(name) => name.clone(),
        }
    }
}

/// The mathematical value of a [`PreambleElement`].
pub enum PreambleElementView {
    /// Use a package with an optional argument.
    UsePackage { package: Seq<char>, argument: Option<Seq<char>> },
    /// A `\newcommand` line.
    NewCommand {
        name: Seq<char>,
        args_num: Option<usize>,
        default_arg: Option<Seq<char>>,
        definition: Seq<char>,
    },
    /// A raw line.
    UserDefined(Seq<char>),
}

/// An element of the document's preamble.
#[derive(Debug, PartialEq)]
pub enum PreambleElement {
    /// Use a package with an optional argument.
    UsePackage { package: String, argument: Option<String> },
    /// Create a `\newcommand` line in latex
    NewCommand {
        name: String,
        args_num: Option<usize>,
        default_arg: Option<String>,
        definition: String,
    },
    /// An escape hatch for including an arbitrary bit of TeX in a preamble.
    UserDefined(String),
}

impl View for PreambleElement {
    type V = PreambleElementView;

    open spec fn view(&self) -> PreambleElementView {
        match self {
            PreambleElement::UsePackage { package, argument } => PreambleElementView::UsePackage {
                package: package@,
                argument: option_text(*argument),
            },
            PreambleElement::NewCommand {
                name,
                args_num,
                default_arg,
                definition,
            } => PreambleElementView::NewCommand {
                name: name@,
                args_num: *args_num,
                default_arg: option_text(*default_arg),
                definition: definition@,
            },
            PreambleElement::UserDefined(line) => PreambleElementView::UserDefined(line@),
        }
    }
}

impl Clone for PreambleElement {
    fn clone(&self) -> (copy: PreambleElement)
        ensures
            copy@ == self@,
    {
        match self {
            PreambleElement::UsePackage { package, argument } => PreambleElement::UsePackage {
                package: package.clone(),
                argument: clone_option(argument),
            },
            PreambleElement::NewCommand {
                name,
                args_num,
                default_arg,
                definition,
            } => PreambleElement::NewCommand {
                name: name.clone(),
                args_num: *args_num,
                default_arg: clone_option(default_arg),
                definition: definition.clone(),
            },
            PreambleElement::UserDefined(line) => PreambleElement::UserDefined(line.clone()),
        }
    }
}

impl IntoNode<PreambleElement> for PreambleElement {
    open spec fn node_view(self) -> PreambleElementView {
        self@
    }

    fn into_node(self) -> (node: PreambleElement) {
        self
    }
}

/// The mathematical value of a [`Preamble`].
pub struct PreambleView {
    /// The document's author.
    pub author: Option<Seq<char>>,
    /// The document's title.
    pub title: Option<Seq<char>>,
    /// The imports and definitions, in order.
    pub contents: Seq<PreambleElementView>,
}

/// A node representing the document's preamble.
#[derive(Debug, PartialEq)]
pub struct Preamble {
    /// The document's author.
    pub author: Option<String>,
    /// An optional title for the document.
    pub title: Option<String>,
    /// The imports and definitions of the preamble, in order.
    pub contents: Vec<PreambleElement>,
}

impl View for Preamble {
    type V = PreambleView;

    open spec fn view(&self) -> PreambleView {
        PreambleView {
            author: option_text(self.author),
            title: option_text(self.title),
            contents: self.contents@.map_values(|e: PreambleElement| e@),
        }
    }
}

impl PreambleView {
    /// The preamble without author, title and contents.
    pub open spec fn empty() -> PreambleView {
        PreambleView { author: None, title: None, contents: Seq::empty() }
    }
}

impl Clone for Preamble {
    fn clone(&self) -> (copy: Preamble)
        ensures
            copy@ == self@,
    {
        let mut contents: Vec<PreambleElement> = Vec::new();
        let mut i: usize = 0;
        while i < self.contents.len()
            invariant
                i <= self.contents.len(),
                contents@.len() == i,
                forall|j: int| 0 <= j < i ==> (#[trigger] contents@[j])@ == self.contents@[j]@,
            decreases self.contents.len() - i,
        {
            contents.push(self.contents[i].clone());
            i += 1;
        }
        let copy = Preamble {
            author: clone_option(&self.author),
            title: clone_option(&self.title),
            contents,
        };
        assert(copy@.contents =~= self@.contents);
        copy
    }
}

impl Default for Preamble {
    fn default() -> (preamble: Preamble)
        ensures
            preamble@ == PreambleView::empty(),
    {
        let preamble = Preamble { author: None, title: None, contents: Vec::new() };
        assert(preamble@.contents =~= Seq::empty());
        preamble
    }
}

impl Preamble {
    /// Set the document's author, replacing an earlier one.
    pub fn author(&mut self, name: &str) -> (ret: &mut Self)
        ensures
            ret@ == (PreambleView { author: Some(name@), ..old(self)@ }),
            *final(self) == *final(ret),
    {
        self.author = Some(name.to_owned());
        self
    }

    /// Set the document title, replacing an earlier one.
    pub fn title(&mut self, name: &str) -> (ret: &mut Self)
        ensures
            ret@ == (PreambleView { title: Some(name@), ..old(self)@ }),
            *final(self) == *final(ret),
    {
        self.title = Some(name.to_owned());
        self
    }

    /// Add a package import, without an argument, to the preamble.
    pub fn use_package(&mut self, name: &str) -> (ret: &mut Self)
        ensures
            ret@ == (PreambleView {
                contents: old(self)@.contents.push(
                    PreambleElementView::UsePackage { package: name@, argument: None },
                ),
                ..old(self)@
            }),
            *final(self) == *final(ret),
    {
        self.push(PreambleElement::UsePackage { package: name.to_owned(), argument: None })
    }

    /// The most commonly used way to write a `\newcommand` line: a name, the
    /// number of arguments and the definition, without a default argument.
    pub fn new_command(&mut self, name: &str, args_num: usize, definition: &str) -> (ret: &mut Self)
        ensures
            ret@ == (PreambleView {
                contents: old(self)@.contents.push(
                    PreambleElementView::NewCommand {
                        name: name@,
                        args_num: Some(args_num),
                        default_arg: None,
                        definition: definition@,
                    },
                ),
                ..old(self)@
            }),
            *final(self) == *final(ret),
    {
        self.push(
            PreambleElement::NewCommand {
                name: name.to_owned(),
                args_num: Some(args_num),
                default_arg: None,
                definition: definition.to_owned(),
            },
        )
    }

    /// Iterate over each element of the preamble, in order.
    pub fn iter(&self) -> (it: std::slice::Iter<'_, PreambleElement>)
        ensures
            it.remaining().len() == self@.contents.len(),
            forall|i: int|
                0 <= i < self@.contents.len() ==> (#[trigger] it.remaining()[i])@
                    == self@.contents[i],
    {
        self.contents.iter()
    }

    /// Is the preamble empty: without imports and definitions? Author and
    /// title do not count.
    pub fn is_empty(&self) -> (empty: bool)
        ensures
            empty == (self@.contents.len() == 0),
    {
        self.contents.is_empty()
    }

    /// Add a PreambleElement to the `Preamble`.
    pub fn push<E: IntoNode<PreambleElement>>(&mut self, element: E) -> (ret: &mut Self)
        ensures
            ret@ == (PreambleView {
                contents: old(self)@.contents.push(element.node_view()),
                ..old(self)@
            }),
            *final(self) == *final(ret),
    {
        self.contents.push(element.into_node());
        assert(self@.contents =~= old(self)@.contents.push(element.node_view()));
        self
    }
}

/// The mathematical value of a [`Document`].
pub struct DocumentView {
    /// The document class.
    pub class: DocumentClassView,
    /// The preamble.
    pub preamble: PreambleView,
    /// The views of the top-level elements, in order.
    pub elements: Seq<ElementView>,
}

/// The root Document node.
#[derive(Debug, PartialEq)]
pub struct Document {
    /// The document class.
    pub class: DocumentClass,
    /// The `Document`'s preamble.
    pub preamble: Preamble,
    /// The various elements inside this `Document`, in order.
    pub elements: Vec<Element>,
}

impl View for Document {
    type V = DocumentView;

    open spec fn view(&self) -> DocumentView {
        DocumentView {
            class: self.class@,
            preamble: self.preamble@,
            elements: self.elements@.map_values(|e: Element| e@),
        }
    }
}

impl Document {
    /// Create a new `Document` with the specified `DocumentClass`, an empty
    /// preamble and no elements.
    pub fn new(document_class: DocumentClass) -> (doc: Document)
        ensures
            doc@ == (DocumentView {
                class: document_class@,
                preamble: PreambleView::empty(),
                elements: Seq::empty(),
            }),
    {
        let doc = Document {
            class: document_class,
            preamble: Preamble::default(),
            elements: Vec::new(),
        };
        assert(doc@.elements =~= Seq::empty());
        doc
    }

    /// Add an element to the end of the `Document`.
    pub fn push<E: IntoNode<Element>>(&mut self, element: E) -> (ret: &mut Self)
        ensures
            ret@ == (DocumentView {
                elements: old(self)@.elements.push(element.node_view()),
                ..old(self)@
            }),
            *final(self) == *final(ret),
    {
        self.elements.push(element.into_node());
        assert(self@.elements =~= old(self)@.elements.push(element.node_view()));
        self
    }

    /// Iterate over the Elements in this document, in order.
    pub fn iter(&self) -> (it: std::slice::Iter<'_, Element>)
        ensures
            it.remaining().len() == self@.elements.len(),
            forall|i: int|
                0 <= i < self@.elements.len() ==> (#[trigger] it.remaining()[i])@
                    == self@.elements[i],
    {
        self.elements.iter()
    }

    /// Include one document into another by copying its elements to the end
    /// of this one, in order. Class and preamble of `doc` are not taken.
    pub fn push_doc(&mut self, doc: &Document) -> (ret: &mut Self)
        ensures
            ret@ == (DocumentView {
                elements: old(self)@.elements + doc@.elements,
                ..old(self)@
            }),
            *final(self) == *final(ret),
    {
        let mut i: usize = 0;
        while i < doc.elements.len()
            invariant
                i <= doc.elements.len(),
                self@.class == old(self)@.class,
                self@.preamble == old(self)@.preamble,
                self@.elements == old(self)@.elements + doc@.elements.take(i as int),
            decreases doc.elements.len() - i,
        {
            self.push(doc.elements[i].clone());
            i += 1;
        }
        assert(doc@.elements.take(i as int) =~= doc@.elements);
        self
    }
}

impl std::ops::Deref for Document {
    type Target = Vec<Element>;

    /// A shortcut to the elements of the `Document`.
    fn deref(&self) -> (elements: &Vec<Element>)
        ensures
            elements@.map_values(|e: Element| e@) == self@.elements,
    {
        &self.elements
    }
}

impl Default for Document {
    fn default() -> (doc: Document)
        ensures
            doc@ == (DocumentView {
                class: DocumentClassView::Article,
                preamble: PreambleView::empty(),
                elements: Seq::empty(),
            }),
    {
        Document::new(DocumentClass::Article)
    }
}

impl Clone for Document {
    fn clone(&self) -> (copy: Document)
        ensures
            copy@ == self@,
    {
        let mut copy = Document::new(self.class.clone());
        copy.preamble = self.preamble.clone();
        copy.push_doc(self);
        assert(copy@.elements =~= self@.elements);
        copy
    }
}

} // verus!
