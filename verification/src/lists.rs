//! Itemized and enumerated lists.

use vstd::prelude::*;
use vstd::std_specs::iter::IteratorSpec;

verus! {

/// Wrapper around a single list item.
///
/// An item is rendered as `\item` followed by the item's text.
#[derive(Debug, PartialEq)]
pub struct Item(pub String);

impl View for Item {
    type V = Seq<char>;

    open spec fn view(&self) -> Seq<char> {
        self.0@
    }
}

impl Clone for Item {
    fn clone(&self) -> (copy: Item)
        ensures
            copy@ == self@,
    {
        Item(self.0.clone())
    }
}

impl std::ops::Deref for Item {
    type Target = str;

    fn deref(&self) -> (text: &str)
        ensures
            text@ == self@,
    {
        self.0.as_str()
    }
}

impl Item {
    /// The item's text.
    pub fn as_str(&self) -> (text: &str)
        ensures
            text@ == self@,
    {
        self.0.as_str()
    }
}

/// Which kind of list should be used?
#[derive(Clone, Copy, Debug, PartialEq, Eq, Structural)]
pub enum ListKind {
    /// A numbered list.
    Enumerate,
    /// An un-numbered list.
    Itemize,
}

impl ListKind {
    /// The name of the environment that a list of this kind is rendered as.
    pub open spec fn name(self) -> Seq<char> {
        match self {
            ListKind::Enumerate => "enumerate"@,
            ListKind::Itemize => "itemize"@,
        }
    }

    /// Get the `ListKind`'s environment name.
    pub fn environment_name(&self) -> (name: &'static str)
        ensures
            name@ == self.name(),
    {
        match *self {
            ListKind::Enumerate => "enumerate",
            ListKind::Itemize => "itemize",
        }
    }
}

/// The mathematical value of a [`List`].
pub struct ListView {
    /// The kind of list.
    pub kind: ListKind,
    /// The argument rendered in brackets behind the begin marker, if any.
    pub argument: Option<Seq<char>>,
    /// The text of each item, in order.
    pub items: Seq<Seq<char>>,
}

/// A list (either dot points or numbered).
#[derive(Debug, PartialEq)]
pub struct List {
    /// The kind of list this is.
    pub kind: ListKind,
    /// An optional argument for the list environment.
    pub argument: Option<String>,
    /// The items of the list, in order.
    pub items: Vec<Item>,
}

impl View for List {
    type V = ListView;

    open spec fn view(&self) -> ListView {
        ListView {
            kind: self.kind,
            argument: match self.argument {
                Some(a) => Some(a@),
                None => None,
            },
            items: self.items@.map_values(|item: Item| item@),
        }
    }
}

impl Clone for List {
    fn clone(&self) -> (copy: List)
        ensures
            copy@ == self@,
    {
        let argument = match &self.argument {
            Some(a) => Some(a.clone()),
            None => None,
        };
        let mut items: Vec<Item> = Vec::new();
        let mut i: usize = 0;
        while i < self.items.len()
            invariant
                i <= self.items.len(),
                items@.len() == i,
                forall|j: int| 0 <= j < i ==> (#[trigger] items@[j])@ == self.items@[j]@,
            decreases self.items.len() - i,
        {
            items.push(self.items[i].clone());
            i += 1;
        }
        let copy = List { kind: self.kind, argument, items };
        assert(copy@.items =~= self@.items);
        copy
    }
}

impl List {
    /// Create an empty list of the specified type, without an argument.
    pub fn new(kind: ListKind) -> (list: List)
        ensures
            list@ == (ListView { kind, argument: None, items: Seq::empty() }),
    {
        let list = List { kind, argument: None, items: Vec::new() };
        assert(list@.items =~= Seq::empty());
        list
    }

    /// Add an element to the list.
    pub fn push(&mut self, item: &str) -> (ret: &mut Self)
        ensures
            ret@ == (ListView { items: old(self)@.items.push(item@), ..old(self)@ }),
            *final(self) == *final(ret),
    {
        self.items.push(Item(item.to_owned()));
        assert(self@.items =~= old(self)@.items.push(item@));
        self
    }

    /// Iterate over the items in the list, in order.
    pub fn iter(&self) -> (it: std::slice::Iter<'_, Item>)
        ensures
            it.remaining().len() == self@.items.len(),
            forall|i: int|
                0 <= i < self@.items.len() ==> (#[trigger] it.remaining()[i])@ == self@.items[i],
    {
        self.items.iter()
    }
}

} // verus!
