//! Build LaTeX documents as a typed tree and render them to text.
//!
//! A [`Document`] is composed from sections, paragraphs, lists, tables and
//! equations through chained `push` calls. Every node type has a
//! mathematical view, the functions of [`render`] say which text a view
//! stands for, and [`print`] is proved to return exactly that text.
//!
//! The tree can be walked with the [`Visitor`] trait; [`Printer`] is the
//! visitor that writes the `tex` source.

pub mod convert;
pub mod document;
pub mod element;
pub mod equations;
pub mod laws;
pub mod lists;
pub mod paragraph;
pub mod printer;
pub mod render;
pub mod table;
pub mod text;
pub mod visitor;

pub use convert::IntoNode;
pub use document::{
    Document, DocumentClass, DocumentClassView, DocumentView, Preamble, PreambleElement,
    PreambleElementView, PreambleView,
};
pub use element::{Element, ElementView, Section, SectionView};
pub use equations::{Align, AlignView, Equation, EquationView};
pub use lists::{Item, List, ListKind, ListView};
pub use paragraph::{Paragraph, ParagraphElement, ParagraphElementView, ParagraphView};
pub use printer::{print, text_from_utf8, Printer};
pub use table::{
    ColumnAlignment, ColumnSettingsView, IntoTableRow, Table, TableColumnSettings,
    TableColumnSettingsWrapper, TableHLine, TableRow, TableRowView, TableView, ToCell,
};
pub use visitor::{walk_section, Error, Node, Visitor};
