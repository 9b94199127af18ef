//! Equations and the `align` environment that holds them.

use crate::convert::IntoNode;
use vstd::prelude::*;
use vstd::std_specs::iter::IteratorSpec;

verus! {

/// The mathematical value of an [`Equation`].
pub struct EquationView {
    /// The equation's text.
    pub text: Seq<char>,
    /// The label, if one was given.
    pub label: Option<Seq<char>>,
    /// Whether numbering is switched off for this equation.
    pub not_numbered: bool,
}

/// A single equation.
///
/// The `Equation` struct is designed to be added to an [`Align`] object.
#[derive(Debug, PartialEq)]
pub struct Equation {
    text: String,
    label: Option<String>,
    not_numbered: bool,
}

impl View for Equation {
    type V = EquationView;

    closed spec fn view(&self) -> EquationView {
        EquationView {
            text: self.text@,
            label: match self.label {
                Some(l) => Some(l@),
                None => None,
            },
            not_numbered: self.not_numbered,
        }
    }
}

impl Clone for Equation {
    fn clone(&self) -> (copy: Equation)
        ensures
            copy@ == self@,
    {
        let label = match &self.label {
            Some(l) => Some(l.clone()),
            None => None,
        };
        Equation { text: self.text.clone(), label, not_numbered: self.not_numbered }
    }
}

impl Default for Equation {
    fn default() -> (eq: Equation)
        ensures
            eq@ == (EquationView { text: Seq::empty(), label: None, not_numbered: false }),
    {
        Equation { text: String::new(), label: None, not_numbered: false }
    }
}

impl Equation {
    /// Create a new `Equation`: unlabelled and numbered.
    pub fn new(src: &str) -> (eq: Equation)
        ensures
            eq@ == (EquationView { text: src@, label: None, not_numbered: false }),
    {
        Equation { text: src.to_owned(), label: None, not_numbered: false }
    }

    /// Create an equation which has a label.
    pub fn with_label(label: &str, text: &str) -> (eq: Equation)
        ensures
            eq@ == (EquationView { text: text@, label: Some(label@), not_numbered: false }),
    {
        let mut eq = Equation::new(text);
        eq.label(label);
        eq
    }

    /// Give the equation a label, replacing an earlier one.
    pub fn label(&mut self, name: &str) -> (ret: &mut Self)
        ensures
            ret@ == (EquationView { label: Some(name@), ..old(self)@ }),
            *final(self) == *final(ret),
    {
        self.label = Some(name.to_owned());
        self
    }

    /// Set the equation's text.
    pub fn text(&mut self, src: &str) -> (ret: &mut Self)
        ensures
            ret@ == (EquationView { text: src@, ..old(self)@ }),
            *final(self) == *final(ret),
    {
        self.text = src.to_owned();
        self
    }

    /// Switch numbering off: the `\nonumber` command is then rendered for
    /// this equation.
    pub fn not_numbered(&mut self) -> (ret: &mut Self)
        ensures
            ret@ == (EquationView { not_numbered: true, ..old(self)@ }),
            *final(self) == *final(ret),
    {
        self.not_numbered = true;
        self
    }

    /// Get the equation's text.
    pub fn get_text(&self) -> (text: &str)
        ensures
            text@ == self@.text,
    {
        self.text.as_str()
    }

    /// Get the equation label, if there is one.
    pub fn get_label(&self) -> (label: Option<&str>)
        ensures
            label is Some == self@.label is Some,
            label matches Some(l) ==> l@ == self@.label->0,
    {
        match &self.label {
            Some(l) => Some(l.as_str()),
            None => None,
        }
    }

    /// Is this equation numbered?
    pub fn is_numbered(&self) -> (numbered: bool)
        ensures
            numbered == !self@.not_numbered,
    {
        !self.not_numbered
    }
}

impl IntoNode<Equation> for Equation {
    open spec fn node_view(self) -> EquationView {
        self@
    }

    fn into_node(self) -> (node: Equation) {
        self
    }
}

impl<'a> IntoNode<Equation> for &'a str {
    open spec fn node_view(self) -> EquationView {
        EquationView { text: self@, label: None, not_numbered: false }
    }

    fn into_node(self) -> (node: Equation) {
        Equation::new(self)
    }
}

/// The mathematical value of an [`Align`]: its equations in order.
pub struct AlignView {
    /// The views of the equations.
    pub items: Seq<EquationView>,
}

/// A list of equations to be used in an `align` environment.
///
/// Using this environment requires the `amsmath` package in the preamble.
#[derive(Debug, PartialEq)]
pub struct Align {
    items: Vec<Equation>,
}

impl View for Align {
    type V = AlignView;

    closed spec fn view(&self) -> AlignView {
        AlignView { items: self.items@.map_values(|e: Equation| e@) }
    }
}

impl Clone for Align {
    fn clone(&self) -> (copy: Align)
        ensures
            copy@ == self@,
    {
        let mut items: Vec<Equation> = Vec::new();
        let mut i: usize = 0;
        while i < self.items.len()
            invariant
                i <= self.items.len(),
                items@.len() == i,
                forall|j: int| 0 <= j < i ==> (#[trigger] items@[j])@ == self.items@[j]@,
            decreases self.items.len() - i,
        {
            items.push(self.items[i].clone());
            i += 1;
        }
        let copy = Align { items };
        assert(copy@.items =~= self@.items);
        copy
    }
}

impl Default for Align {
    fn default() -> (align: Align)
        ensures
            align@.items == Seq::<EquationView>::empty(),
    {
        Align::new()
    }
}

impl Align {
    /// Create an empty equation list.
    pub fn new() -> (align: Align)
        ensures
            align@.items == Seq::<EquationView>::empty(),
    {
        Align { items: Vec::new() }
    }

    /// Iterate over each of the equations in the list, in order.
    pub fn iter(&self) -> (it: std::slice::Iter<'_, Equation>)
        ensures
            it.remaining().len() == self@.items.len(),
            forall|i: int|
                0 <= i < self@.items.len() ==> (#[trigger] it.remaining()[i])@ == self@.items[i],
    {
        self.items.iter()
    }

    /// The equations as a slice, in order.
    pub fn as_slice(&self) -> (items: &[Equation])
        ensures
            items@.len() == self@.items.len(),
            forall|i: int| 0 <= i < items@.len() ==> (#[trigger] items@[i])@ == self@.items[i],
    {
        self.items.as_slice()
    }

    /// Add an equation to the end of the list.
    pub fn push<E: IntoNode<Equation>>(&mut self, eq: E) -> (ret: &mut Self)
        ensures
            ret@.items == old(self)@.items.push(eq.node_view()),
            *final(self) == *final(ret),
    {
        self.items.push(eq.into_node());
        self
    }
}

impl<'a> IntoNode<Align> for &'a str {
    open spec fn node_view(self) -> AlignView {
        AlignView {
            items: seq![EquationView { text: self@, label: None, not_numbered: false }],
        }
    }

    fn into_node(self) -> (node: Align) {
        let mut eq = Align::new();
        eq.push(self);
        eq
    }
}

/// The standard conversion; the node is that of [`IntoNode`].
impl<'a> From<&'a str> for Equation {
    fn from(other: &'a str) -> (node: Equation)
        ensures
            node@ == <&str as IntoNode<Equation>>::node_view(other),
    {
        other.into_node()
    }
}

/// The node is fixed by its view: a contract cannot name the value
/// itself, which holds strings.
impl<'a> vstd::std_specs::convert::FromSpecImpl<&'a str> for Equation {
    open spec fn obeys_from_spec() -> bool {
        false
    }

    open spec fn from_spec(other: &'a str) -> Equation {
        arbitrary()
    }
}

/// The standard conversion; the node is that of [`IntoNode`].
impl<'a> From<&'a str> for Align {
    fn from(other: &'a str) -> (node: Align)
        ensures
            node@ == <&str as IntoNode<Align>>::node_view(other),
    {
        other.into_node()
    }
}

/// The node is fixed by its view: a contract cannot name the value
/// itself, which holds strings.
impl<'a> vstd::std_specs::convert::FromSpecImpl<&'a str> for Align {
    open spec fn obeys_from_spec() -> bool {
        false
    }

    open spec fn from_spec(other: &'a str) -> Align {
        arbitrary()
    }
}

} // verus!
