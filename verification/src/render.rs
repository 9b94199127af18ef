//! What a document renders to: the text of each node, as a function of the
//! node's view.
//!
//! These functions say what the printer writes. Raw content (plain text,
//! user-defined lines, environment lines, raw column settings) stands in the
//! text as it is: nothing is escaped.

use crate::document::{DocumentClassView, DocumentView, PreambleElementView, PreambleView};
use crate::element::{ElementView, SectionView};
use crate::equations::{AlignView, EquationView};
use crate::lists::ListView;
use crate::paragraph::{ParagraphElementView, ParagraphView};
use crate::table::{effective_settings, ColumnSettingsView, TableRowView, TableView};
use crate::text::decimal;
use vstd::prelude::*;

verus! {

/// The parts one after another.
pub open spec fn concat(parts: Seq<Seq<char>>) -> Seq<char>
    decreases parts.len(),
{
    if parts.len() == 0 {
        Seq::empty()
    } else {
        concat(parts.drop_last()) + parts.last()
    }
}

/// The parts one after another, with `separator` between each two.
pub open spec fn join(parts: Seq<Seq<char>>, separator: Seq<char>) -> Seq<char>
    decreases parts.len(),
{
    if parts.len() == 0 {
        Seq::empty()
    } else if parts.len() == 1 {
        parts[0]
    } else {
        join(parts.drop_last(), separator) + separator + parts.last()
    }
}

/// `text` between `before` and `after`.
pub open spec fn wrapped(before: Seq<char>, text: Seq<char>, after: Seq<char>) -> Seq<char> {
    before + text + after
}

/// `text` in brackets where there is one, nothing where there is none.
pub open spec fn bracketed(text: Option<Seq<char>>) -> Seq<char> {
    match text {
        Some(t) => wrapped("["@, t, "]"@),
        None => Seq::empty(),
    }
}

/// An inline element: plain text as it is, inline math between dollar
/// signs, bold and italic as a command around the element inside.
pub open spec fn render_paragraph_element(element: ParagraphElementView) -> Seq<char>
    decreases element,
{
    match element {
        ParagraphElementView::Plain(text) => text,
        ParagraphElementView::InlineMath(math) => wrapped("$"@, math, "$"@),
        ParagraphElementView::Bold(inner) => wrapped(
            "\\textbf{"@,
            render_paragraph_element(*inner),
            "}"@,
        ),
        ParagraphElementView::Italic(inner) => wrapped(
            "\\textit{"@,
            render_paragraph_element(*inner),
            "}"@,
        ),
    }
}

/// A paragraph: its elements without a separator, then a newline.
pub open spec fn render_paragraph(paragraph: ParagraphView) -> Seq<char> {
    concat(paragraph.elements.map_values(|e: ParagraphElementView| render_paragraph_element(e)))
        + "\n"@
}

/// The reference to an equation's label, or nothing where it has none.
pub open spec fn render_label(label: Option<Seq<char>>) -> Seq<char> {
    match label {
        Some(l) => wrapped(" \\label{"@, l, "}"@),
        None => Seq::empty(),
    }
}

/// The mark of an equation that is not numbered, or nothing where it is.
pub open spec fn render_numbering(not_numbered: bool) -> Seq<char> {
    if not_numbered {
        " \\nonumber"@
    } else {
        Seq::empty()
    }
}

/// An equation: the text, the label if there is one, the mark of an
/// unnumbered equation if it is one, and the row terminator.
pub open spec fn render_equation(equation: EquationView) -> Seq<char> {
    equation.text + render_label(equation.label) + render_numbering(equation.not_numbered)
        + " \\\\\n"@
}

/// An `align` environment: the equations between begin and end marker.
pub open spec fn render_align(align: AlignView) -> Seq<char> {
    "\\begin{align}\n"@ + concat(align.items.map_values(|e: EquationView| render_equation(e)))
        + "\\end{align}\n"@
}

/// One item of a list.
pub open spec fn render_list_item(item: Seq<char>) -> Seq<char> {
    wrapped("\\item "@, item, "\n"@)
}

/// A list: the begin marker of the kind's environment with the argument in
/// brackets if there is one, an item line for each item, the end marker.
pub open spec fn render_list(list: ListView) -> Seq<char> {
    wrapped("\\begin{"@, list.kind.name(), "}"@) + bracketed(list.argument) + "\n"@ + concat(
        list.items.map_values(|item: Seq<char>| render_list_item(item)),
    ) + wrapped("\\end{"@, list.kind.name(), "}\n"@)
}

/// The table spec of a table: the raw settings as they are, or one
/// alignment letter for each column of the table. A column without
/// settings of its own has those of the last column that has some, and is
/// left-justified where no column has any.
pub open spec fn render_column_spec(table: TableView) -> Seq<char> {
    match table.column_settings {
        ColumnSettingsView::Raw(raw) => raw,
        ColumnSettingsView::Typed(settings) => Seq::new(
            table.number_columns(),
            |column: int| effective_settings(settings, column).alignment.code(),
        ),
    }
}

/// What ends a row: the row terminator and a newline, or the newline alone
/// where the row suppresses the terminator.
pub open spec fn render_row_end(skip_explicit_new_row: bool) -> Seq<char> {
    if skip_explicit_new_row {
        "\n"@
    } else {
        " \\\\\n"@
    }
}

/// A row: the cells with the column separator between them, then the end of
/// the row. Cells are not added to a row that has fewer than the table has
/// columns.
pub open spec fn render_table_row(row: TableRowView) -> Seq<char> {
    join(row.content, " & "@) + render_row_end(row.skip_explicit_new_row)
}

/// A table: a `tabular` environment with the table spec and the rows.
pub open spec fn render_table(table: TableView) -> Seq<char> {
    wrapped("\\begin{tabular}{"@, render_column_spec(table), "}\n"@) + concat(
        table.content.map_values(|row: TableRowView| render_table_row(row)),
    ) + "\\end{tabular}\n"@
}

/// A line as it is, then a newline.
pub open spec fn render_line(line: Seq<char>) -> Seq<char> {
    line + "\n"@
}

/// A generic environment: the lines as they are between begin and end
/// marker of the given name.
pub open spec fn render_environment(name: Seq<char>, lines: Seq<Seq<char>>) -> Seq<char> {
    wrapped("\\begin{"@, name, "}\n"@) + concat(
        lines.map_values(|line: Seq<char>| render_line(line)),
    ) + wrapped("\\end{"@, name, "}\n"@)
}

/// An element, by its kind.
pub open spec fn render_element(element: ElementView) -> Seq<char>
    decreases element, 1nat,
{
    match element {
        ElementView::Para(paragraph) => render_paragraph(paragraph),
        ElementView::Section(section) => render_section(section),
        ElementView::TableOfContents => "\\tableofcontents\n"@,
        ElementView::TitlePage => "\\maketitle\n"@,
        ElementView::ClearPage => "\\clearpage\n"@,
        ElementView::Align(align) => render_align(align),
        ElementView::Environment(name, lines) => render_environment(name, lines),
        ElementView::UserDefined(line) => render_line(line),
        ElementView::List(list) => render_list(list),
        ElementView::Table(table) => render_table(table),
        ElementView::Input(path) => wrapped("\\input{"@, path, "}\n"@),
    }
}

/// A blank line where `wanted`, nothing else.
pub open spec fn blank_line_if(wanted: bool) -> Seq<char> {
    if wanted {
        "\n"@
    } else {
        Seq::empty()
    }
}

/// Each element of a section, followed by a blank line.
pub open spec fn section_parts(section: SectionView) -> Seq<Seq<char>>
    decreases section, 0nat,
{
    Seq::new(
        section.elements.len(),
        |i: int|
            if 0 <= i < section.elements.len() {
                render_element(section.elements[i]) + "\n"@
            } else {
                Seq::empty()
            },
    )
}

/// A section: the heading line; a blank line if the section has elements;
/// then each element followed by a blank line, the last one too.
pub open spec fn render_section(section: SectionView) -> Seq<char>
    decreases section, 1nat,
{
    wrapped("\\section{"@, section.name, "}\n"@) + blank_line_if(section.elements.len() > 0)
        + concat(section_parts(section))
}

/// The number of arguments of a command as a numeral, where it is given.
pub open spec fn arguments_numeral(args_num: Option<usize>) -> Option<Seq<char>> {
    match args_num {
        Some(n) => Some(decimal(n as nat)),
        None => None,
    }
}

/// An element of the preamble: a package import with its argument in
/// brackets if it has one; a command definition with the number of
/// arguments and the default argument in brackets where they are given; or
/// a raw line.
pub open spec fn render_preamble_element(element: PreambleElementView) -> Seq<char> {
    match element {
        PreambleElementView::UsePackage { package, argument } => "\\usepackage"@ + bracketed(
            argument,
        ) + wrapped("{"@, package, "}\n"@),
        PreambleElementView::NewCommand {
            name,
            args_num,
            default_arg,
            definition,
        } => wrapped("\\newcommand{\\"@, name, "}"@) + bracketed(arguments_numeral(args_num))
            + bracketed(default_arg) + wrapped("{"@, definition, "}\n"@),
        PreambleElementView::UserDefined(line) => render_line(line),
    }
}

/// The title line, or nothing where no title is set.
pub open spec fn render_title(title: Option<Seq<char>>) -> Seq<char> {
    match title {
        Some(t) => wrapped("\\title{"@, t, "}\n"@),
        None => Seq::empty(),
    }
}

/// The author line, or nothing where no author is set.
pub open spec fn render_author(author: Option<Seq<char>>) -> Seq<char> {
    match author {
        Some(a) => wrapped("\\author{"@, a, "}\n"@),
        None => Seq::empty(),
    }
}

/// The preamble: imports and definitions first; a blank line if there are
/// any and a title or an author is set; then the title if there is one;
/// then the author if there is one.
pub open spec fn render_preamble(preamble: PreambleView) -> Seq<char> {
    concat(preamble.contents.map_values(|e: PreambleElementView| render_preamble_element(e)))
        + blank_line_if(
        preamble.contents.len() > 0 && (preamble.title is Some || preamble.author is Some),
    ) + render_title(preamble.title) + render_author(preamble.author)
}

/// The elements of a document's body, one after another.
pub open spec fn render_elements(elements: Seq<ElementView>) -> Seq<char> {
    concat(elements.map_values(|e: ElementView| render_element(e)))
}

/// A document. A partial document is its elements and nothing else; any
/// other is the class declaration, the preamble, and the elements between
/// the document's begin and end marker.
pub open spec fn render_document(doc: DocumentView) -> Seq<char> {
    if doc.class is Part {
        render_elements(doc.elements)
    } else {
        wrapped("\\documentclass{"@, doc.class.name(), "}\n"@) + render_preamble(doc.preamble)
            + "\\begin{document}\n"@ + render_elements(doc.elements) + "\\end{document}\n"@
    }
}

} // verus!
