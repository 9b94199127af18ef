//! The visitor that writes a document as LaTeX source.

use crate::document::{
    option_text, Document, DocumentClass, Preamble, PreambleElement, PreambleElementView,
};
use crate::element::{Element, ElementView, Section};
use crate::equations::{Align, Equation, EquationView};
use crate::lists::{Item, List};
use crate::paragraph::{Paragraph, ParagraphElement, ParagraphElementView};
use crate::render::{
    arguments_numeral, blank_line_if, bracketed, concat, join, render_align, render_author,
    render_column_spec, render_document, render_element, render_elements, render_environment,
    render_equation, render_label, render_line, render_list, render_list_item, render_numbering,
    render_paragraph, render_paragraph_element, render_preamble, render_preamble_element,
    render_row_end, render_section, render_table, render_table_row, render_title, section_parts,
    wrapped,
};
use crate::table::{
    effective_settings, ColumnAlignment, Table, TableColumnSettingsWrapper, TableRow,
    TableRowView,
};
use crate::text::{decimal_string, lemma_encode_utf8_concat};
use crate::visitor::{Error, Node, Visitor};
use vstd::prelude::*;
use vstd::utf8::{decode_utf8, encode_utf8, valid_utf8};

verus! {

/// The bytes of a sink that held `before` after `text` was written to it:
/// `before` followed by the UTF-8 encoding of `text`.
pub open spec fn appended(before: Seq<u8>, text: Seq<char>) -> Seq<u8> {
    before + encode_utf8(text)
}

/// Writing nothing leaves the sink as it is.
pub proof fn lemma_appended_nothing(before: Seq<u8>)
    ensures
        appended(before, Seq::empty()) == before,
{
    assert(encode_utf8(Seq::empty()) =~= Seq::<u8>::empty());
    assert(before + Seq::<u8>::empty() =~= before);
}

/// Writing `a` and then `b` is writing `a + b`.
pub proof fn lemma_appended_2(before: Seq<u8>, a: Seq<char>, b: Seq<char>)
    ensures
        appended(appended(before, a), b) == appended(before, a + b),
{
    lemma_encode_utf8_concat(a, b);
    assert((before + encode_utf8(a)) + encode_utf8(b) =~= before + (encode_utf8(a) + encode_utf8(
        b,
    )));
}

/// Writing three texts in turn is writing them as one.
pub proof fn lemma_appended_3(before: Seq<u8>, a: Seq<char>, b: Seq<char>, c: Seq<char>)
    ensures
        appended(appended(appended(before, a), b), c) == appended(before, a + b + c),
{
    lemma_appended_2(before, a, b);
    lemma_appended_2(before, a + b, c);
}

/// Writing four texts in turn is writing them as one.
pub proof fn lemma_appended_4(
    before: Seq<u8>,
    a: Seq<char>,
    b: Seq<char>,
    c: Seq<char>,
    d: Seq<char>,
)
    ensures
        appended(appended(appended(appended(before, a), b), c), d) == appended(
            before,
            a + b + c + d,
        ),
{
    lemma_appended_3(before, a, b, c);
    lemma_appended_2(before, a + b + c, d);
}

/// Writing five texts in turn is writing them as one.
pub proof fn lemma_appended_5(
    before: Seq<u8>,
    a: Seq<char>,
    b: Seq<char>,
    c: Seq<char>,
    d: Seq<char>,
    e: Seq<char>,
)
    ensures
        appended(appended(appended(appended(appended(before, a), b), c), d), e) == appended(
            before,
            a + b + c + d + e,
        ),
{
    lemma_appended_4(before, a, b, c, d);
    lemma_appended_2(before, a + b + c + d, e);
}

/// Writing part `i` behind the parts before it gives the parts up to and
/// with part `i`.
pub proof fn lemma_part_written(before: Seq<u8>, parts: Seq<Seq<char>>, i: int)
    requires
        0 <= i < parts.len(),
    ensures
        appended(appended(before, concat(parts.take(i))), parts[i]) == appended(
            before,
            concat(parts.take(i + 1)),
        ),
{
    let next = parts.take(i + 1);
    assert(next.drop_last() =~= parts.take(i));
    assert(next.last() == parts[i]);
    lemma_appended_2(before, concat(parts.take(i)), parts[i]);
}

/// Before any part is written, the sink holds what it held.
pub proof fn lemma_no_part_written(before: Seq<u8>, parts: Seq<Seq<char>>)
    ensures
        appended(before, concat(parts.take(0))) == before,
        parts.take(parts.len() as int) == parts,
{
    assert(parts.take(0) =~= Seq::empty());
    assert(parts.take(parts.len() as int) =~= parts);
    lemma_appended_nothing(before);
}

/// The cells up to and with cell `i`, joined: the first cell alone, or
/// the cells before, the separator and cell `i`.
pub proof fn lemma_join_step(cells: Seq<Seq<char>>, separator: Seq<char>, i: int)
    requires
        0 <= i < cells.len(),
    ensures
        join(cells.take(i + 1), separator) == if i == 0 {
            cells[0]
        } else {
            join(cells.take(i), separator) + separator + cells[i]
        },
{
    let next = cells.take(i + 1);
    assert(next.drop_last() =~= cells.take(i));
    assert(next.last() == cells[i]);
    assert(next[0] == cells[0]);
}

/// The table spec of a table as a string.
pub fn column_spec(table: &Table) -> (spec: String)
    ensures
        spec@ == render_column_spec(table@),
{
    match &table.column_settings {
        TableColumnSettingsWrapper::Raw(raw) => raw.clone(),
        TableColumnSettingsWrapper::Typed(settings) => {
            let columns = table.number_columns();
            let mut spec = String::new();
            let mut column: usize = 0;
            while column < columns
                invariant
                    column <= columns,
                    spec@ == Seq::new(
                        column as nat,
                        |c: int| effective_settings(settings@, c).alignment.code(),
                    ),
                decreases columns - column,
            {
                let alignment = if column < settings.len() {
                    settings[column].alignment
                } else if settings.len() > 0 {
                    settings[settings.len() - 1].alignment
                } else {
                    ColumnAlignment::Left
                };
                spec.append(alignment.as_str());
                column += 1;
                assert(spec@ =~= Seq::new(
                    column as nat,
                    |c: int| effective_settings(settings@, c).alignment.code(),
                ));
            }
            spec
        },
    }
}

/// The type which visits each node in a document and writes its `tex`
/// representation, encoded as UTF-8, to a byte buffer.
pub struct Printer {
    writer: Vec<u8>,
}

impl View for Printer {
    type V = Seq<u8>;

    /// The bytes in the buffer.
    closed spec fn view(&self) -> Seq<u8> {
        self.writer@
    }
}

impl Printer {
    /// Create a new `Printer` which will write behind what `writer` holds.
    pub fn new(writer: Vec<u8>) -> (printer: Printer)
        ensures
            printer@ == writer@,
    {
        Printer { writer }
    }

    /// Give the buffer back.
    pub fn into_inner(self) -> (writer: Vec<u8>)
        ensures
            writer@ == self@,
    {
        self.writer
    }

    /// Write text to the buffer.
    fn emit(&mut self, text: &str)
        ensures
            final(self)@ == appended(old(self)@, text@),
    {
        self.writer.extend_from_slice(text.as_bytes());
    }

    /// Write `text` between `before` and `after`.
    fn emit_wrapped(&mut self, before: &str, text: &str, after: &str)
        ensures
            final(self)@ == appended(old(self)@, wrapped(before@, text@, after@)),
    {
        self.emit(before);
        self.emit(text);
        self.emit(after);
        proof {
            lemma_appended_3(old(self)@, before@, text@, after@);
        }
    }

    /// Write a line: the text and a newline.
    fn emit_line(&mut self, line: &str)
        ensures
            final(self)@ == appended(old(self)@, render_line(line@)),
    {
        self.emit(line);
        self.emit("\n");
        proof {
            lemma_appended_2(old(self)@, line@, "\n"@);
        }
    }

    /// Write `text` in brackets, or nothing where there is none.
    fn emit_bracketed(&mut self, text: &Option<String>)
        ensures
            final(self)@ == appended(old(self)@, bracketed(option_text(*text))),
    {
        match text {
            Some(t) => {
                self.emit_wrapped("[", t.as_str(), "]");
            },
            None => {
                proof {
                    lemma_appended_nothing(self@);
                }
            },
        }
    }

    /// Write the cells of a row with the column separator between them.
    fn emit_cells(&mut self, row: &TableRow)
        ensures
            final(self)@ == appended(old(self)@, join(row@.content, " & "@)),
    {
        let ghost cells = row@.content;
        let mut i: usize = 0;
        proof {
            assert(cells.take(0) =~= Seq::empty());
            lemma_appended_nothing(self@);
        }
        while i < row.content.len()
            invariant
                i <= row.content.len(),
                cells == row@.content,
                self@ == appended(old(self)@, join(cells.take(i as int), " & "@)),
            decreases row.content.len() - i,
        {
            if i > 0 {
                self.emit(" & ");
            }
            self.emit(row.content[i].as_str());
            proof {
                assert(cells[i as int] == row.content@[i as int]@);
                lemma_join_step(cells, " & "@, i as int);
                if i > 0 {
                    lemma_appended_3(
                        old(self)@,
                        join(cells.take(i as int), " & "@),
                        " & "@,
                        cells[i as int],
                    );
                } else {
                    lemma_appended_nothing(old(self)@);
                }
            }
            i += 1;
        }
        assert(cells.take(i as int) =~= cells);
    }

    /// Write a row of a table.
    fn emit_table_row(&mut self, row: &TableRow)
        ensures
            final(self)@ == appended(old(self)@, render_table_row(row@)),
    {
        self.emit_cells(row);
        if row.skip_explicit_new_row {
            self.emit("\n");
        } else {
            self.emit(" \\\\\n");
        }
        proof {
            lemma_appended_2(
                old(self)@,
                join(row@.content, " & "@),
                render_row_end(row@.skip_explicit_new_row),
            );
        }
    }

    /// Write an element of the preamble.
    fn emit_preamble_element(&mut self, element: &PreambleElement)
        ensures
            final(self)@ == appended(old(self)@, render_preamble_element(element@)),
    {
        match element {
            PreambleElement::UsePackage { package, argument } => {
                self.emit("\\usepackage");
                self.emit_bracketed(argument);
                self.emit_wrapped("{", package.as_str(), "}\n");
                proof {
                    lemma_appended_3(
                        old(self)@,
                        "\\usepackage"@,
                        bracketed(option_text(*argument)),
                        wrapped("{"@, package@, "}\n"@),
                    );
                }
            },
            PreambleElement::NewCommand { name, args_num, default_arg, definition } => {
                self.emit_wrapped("\\newcommand{\\", name.as_str(), "}");
                let numeral = match args_num {
                    Some(n) => Some(decimal_string(*n as u128)),
                    None => None,
                };
                self.emit_bracketed(&numeral);
                self.emit_bracketed(default_arg);
                self.emit_wrapped("{", definition.as_str(), "}\n");
                proof {
                    assert(option_text(numeral) == arguments_numeral(*args_num));
                    lemma_appended_4(
                        old(self)@,
                        wrapped("\\newcommand{\\"@, name@, "}"@),
                        bracketed(arguments_numeral(*args_num)),
                        bracketed(option_text(*default_arg)),
                        wrapped("{"@, definition@, "}\n"@),
                    );
                }
            },
            PreambleElement::UserDefined(line) => {
                self.emit_line(line.as_str());
            },
        }
    }

    /// Write a blank line where `wanted`.
    fn emit_blank_line_if(&mut self, wanted: bool)
        ensures
            final(self)@ == appended(old(self)@, blank_line_if(wanted)),
    {
        if wanted {
            self.emit("\n");
        } else {
            proof {
                lemma_appended_nothing(self@);
            }
        }
    }
}

/// The text that the printer writes for a node.
pub open spec fn render_node(node: Node) -> Seq<char> {
    match node {
        Node::Document(doc) => render_document(doc),
        Node::Preamble(preamble) => render_preamble(preamble),
        Node::Element(element) => render_element(element),
        Node::Paragraph(paragraph) => render_paragraph(paragraph),
        Node::ParagraphElement(element) => render_paragraph_element(element),
        Node::Section(section) => render_section(section),
        Node::Align(align) => render_align(align),
        Node::Equation(equation) => render_equation(equation),
        Node::List(list) => render_list(list),
        Node::ListItem(item) => render_list_item(item),
        Node::Table(table) => render_table(table),
        Node::Environment(name, lines) => render_environment(name, lines),
        Node::UserDefinedLine(line) => render_line(line),
        Node::Input(path) => wrapped("\\input{"@, path, "}\n"@),
    }
}

impl Visitor for Printer {
    /// A visit succeeds and writes the text of the node behind what the
    /// buffer held.
    open spec fn visited(before: Self, node: Node, after: Self, r: Result<(), Error>) -> bool {
        r is Ok && after@ == appended(before@, render_node(node))
    }

    fn visit_paragraph_element(&mut self, element: &ParagraphElement) -> (r: Result<(), Error>)
        ensures
            r is Ok,
            final(self)@ == appended(old(self)@, render_paragraph_element(element@)),
        decreases element,
    {
        match element {
            ParagraphElement::Plain(s) => {
                self.emit(s.as_str());
            },
            ParagraphElement::InlineMath(s) => {
                self.emit_wrapped("$", s.as_str(), "$");
            },
            ParagraphElement::Bold(e) => {
                self.emit("\\textbf{");
                self.visit_paragraph_element(e)?;
                self.emit("}");
                proof {
                    lemma_appended_3(
                        old(self)@,
                        "\\textbf{"@,
                        render_paragraph_element((**e)@),
                        "}"@,
                    );
                }
            },
            ParagraphElement::Italic(e) => {
                self.emit("\\textit{");
                self.visit_paragraph_element(e)?;
                self.emit("}");
                proof {
                    lemma_appended_3(
                        old(self)@,
                        "\\textit{"@,
                        render_paragraph_element((**e)@),
                        "}"@,
                    );
                }
            },
        }
        Ok(())
    }

    fn visit_paragraph(&mut self, para: &Paragraph) -> (r: Result<(), Error>)
        ensures
            r is Ok,
            final(self)@ == appended(old(self)@, render_paragraph(para@)),
    {
        let ghost parts = para@.elements.map_values(
            |e: ParagraphElementView| render_paragraph_element(e),
        );
        let mut i: usize = 0;
        proof {
            lemma_no_part_written(self@, parts);
        }
        while i < para.elements.len()
            invariant
                i <= para.elements.len(),
                parts == para@.elements.map_values(
                    |e: ParagraphElementView| render_paragraph_element(e),
                ),
                self@ == appended(old(self)@, concat(parts.take(i as int))),
            decreases para.elements.len() - i,
        {
            self.visit_paragraph_element(&para.elements[i])?;
            proof {
                assert(parts[i as int] == render_paragraph_element(para.elements@[i as int]@));
                lemma_part_written(old(self)@, parts, i as int);
            }
            i += 1;
        }
        proof {
            lemma_no_part_written(self@, parts);
        }
        self.emit("\n");
        proof {
            lemma_appended_2(old(self)@, concat(parts), "\n"@);
        }
        Ok(())
    }

    fn visit_equation(&mut self, equation: &Equation) -> (r: Result<(), Error>)
        ensures
            r is Ok,
            final(self)@ == appended(old(self)@, render_equation(equation@)),
    {
        self.emit(equation.get_text());
        match equation.get_label() {
            Some(label) => {
                self.emit_wrapped(" \\label{", label, "}");
            },
            None => {
                proof {
                    lemma_appended_nothing(self@);
                }
            },
        }
        if !equation.is_numbered() {
            self.emit(" \\nonumber");
        } else {
            proof {
                lemma_appended_nothing(self@);
            }
        }
        self.emit(" \\\\\n");
        proof {
            lemma_appended_4(
                old(self)@,
                equation@.text,
                render_label(equation@.label),
                render_numbering(equation@.not_numbered),
                " \\\\\n"@,
            );
        }
        Ok(())
    }

    fn visit_align(&mut self, align: &Align) -> (r: Result<(), Error>)
        ensures
            r is Ok,
            final(self)@ == appended(old(self)@, render_align(align@)),
    {
        self.emit("\\begin{align}\n");
        let ghost start = self@;
        let ghost parts = align@.items.map_values(|e: EquationView| render_equation(e));
        let items = align.as_slice();
        let mut i: usize = 0;
        proof {
            lemma_no_part_written(self@, parts);
        }
        while i < items.len()
            invariant
                i <= items.len(),
                items@.len() == align@.items.len(),
                forall|j: int| 0 <= j < items@.len() ==> (#[trigger] items@[j])@ == align@.items[j],
                parts == align@.items.map_values(|e: EquationView| render_equation(e)),
                self@ == appended(start, concat(parts.take(i as int))),
            decreases items.len() - i,
        {
            self.visit_equation(&items[i])?;
            proof {
                assert(parts[i as int] == render_equation(items@[i as int]@));
                lemma_part_written(start, parts, i as int);
            }
            i += 1;
        }
        proof {
            lemma_no_part_written(self@, parts);
        }
        self.emit("\\end{align}\n");
        proof {
            lemma_appended_3(old(self)@, "\\begin{align}\n"@, concat(parts), "\\end{align}\n"@);
        }
        Ok(())
    }

    fn visit_list_item(&mut self, item: &Item) -> (r: Result<(), Error>)
        ensures
            r is Ok,
            final(self)@ == appended(old(self)@, render_list_item(item@)),
    {
        self.emit_wrapped("\\item ", item.as_str(), "\n");
        Ok(())
    }

    fn visit_list(&mut self, list: &List) -> (r: Result<(), Error>)
        ensures
            r is Ok,
            final(self)@ == appended(old(self)@, render_list(list@)),
    {
        let env = list.kind.environment_name();
        self.emit_wrapped("\\begin{", env, "}");
        self.emit_bracketed(&list.argument);
        self.emit("\n");
        let ghost start = self@;
        let ghost parts = list@.items.map_values(|item: Seq<char>| render_list_item(item));
        let mut i: usize = 0;
        proof {
            lemma_no_part_written(self@, parts);
        }
        while i < list.items.len()
            invariant
                i <= list.items.len(),
                parts == list@.items.map_values(|item: Seq<char>| render_list_item(item)),
                self@ == appended(start, concat(parts.take(i as int))),
            decreases list.items.len() - i,
        {
            self.visit_list_item(&list.items[i])?;
            proof {
                assert(parts[i as int] == render_list_item(list.items@[i as int]@));
                lemma_part_written(start, parts, i as int);
            }
            i += 1;
        }
        proof {
            lemma_no_part_written(self@, parts);
        }
        self.emit_wrapped("\\end{", env, "}\n");
        proof {
            lemma_appended_5(
                old(self)@,
                wrapped("\\begin{"@, list@.kind.name(), "}"@),
                bracketed(list@.argument),
                "\n"@,
                concat(parts),
                wrapped("\\end{"@, list@.kind.name(), "}\n"@),
            );
        }
        Ok(())
    }

    fn visit_preamble(&mut self, preamble: &Preamble) -> (r: Result<(), Error>)
        ensures
            r is Ok,
            final(self)@ == appended(old(self)@, render_preamble(preamble@)),
    {
        let ghost parts = preamble@.contents.map_values(
            |e: PreambleElementView| render_preamble_element(e),
        );
        let mut i: usize = 0;
        proof {
            lemma_no_part_written(self@, parts);
        }
        while i < preamble.contents.len()
            invariant
                i <= preamble.contents.len(),
                parts == preamble@.contents.map_values(
                    |e: PreambleElementView| render_preamble_element(e),
                ),
                self@ == appended(old(self)@, concat(parts.take(i as int))),
            decreases preamble.contents.len() - i,
        {
            self.emit_preamble_element(&preamble.contents[i]);
            proof {
                assert(parts[i as int] == render_preamble_element(preamble.contents@[i as int]@));
                lemma_part_written(old(self)@, parts, i as int);
            }
            i += 1;
        }
        proof {
            lemma_no_part_written(self@, parts);
        }
        self.emit_blank_line_if(
            !preamble.is_empty() && (preamble.title.is_some() || preamble.author.is_some()),
        );
        match &preamble.title {
            Some(title) => {
                self.emit_wrapped("\\title{", title.as_str(), "}\n");
            },
            None => {
                proof {
                    lemma_appended_nothing(self@);
                }
            },
        }
        match &preamble.author {
            Some(author) => {
                self.emit_wrapped("\\author{", author.as_str(), "}\n");
            },
            None => {
                proof {
                    lemma_appended_nothing(self@);
                }
            },
        }
        proof {
            lemma_appended_4(
                old(self)@,
                concat(parts),
                blank_line_if(
                    preamble@.contents.len() > 0 && (preamble@.title is Some
                        || preamble@.author is Some),
                ),
                render_title(preamble@.title),
                render_author(preamble@.author),
            );
        }
        Ok(())
    }

    fn visit_table(&mut self, table: &Table) -> (r: Result<(), Error>)
        ensures
            r is Ok,
            final(self)@ == appended(old(self)@, render_table(table@)),
    {
        let column_spec = column_spec(table);
        self.emit_wrapped("\\begin{tabular}{", column_spec.as_str(), "}\n");
        let ghost start = self@;
        let ghost parts = table@.content.map_values(|row: TableRowView| render_table_row(row));
        let mut i: usize = 0;
        proof {
            lemma_no_part_written(self@, parts);
        }
        while i < table.content.len()
            invariant
                i <= table.content.len(),
                parts == table@.content.map_values(|row: TableRowView| render_table_row(row)),
                self@ == appended(start, concat(parts.take(i as int))),
            decreases table.content.len() - i,
        {
            self.emit_table_row(&table.content[i]);
            proof {
                assert(parts[i as int] == render_table_row(table.content@[i as int]@));
                lemma_part_written(start, parts, i as int);
            }
            i += 1;
        }
        proof {
            lemma_no_part_written(self@, parts);
        }
        self.emit("\\end{tabular}\n");
        proof {
            lemma_appended_3(
                old(self)@,
                wrapped("\\begin{tabular}{"@, render_column_spec(table@), "}\n"@),
                concat(parts),
                "\\end{tabular}\n"@,
            );
        }
        Ok(())
    }

    fn visit_element(&mut self, element: &Element) -> (r: Result<(), Error>)
        ensures
            r is Ok,
            final(self)@ == appended(old(self)@, render_element(element@)),
        decreases element,
    {
        match element {
            Element::Para(p) => self.visit_paragraph(p),
            Element::Section(s) => self.visit_section(s),
            Element::TableOfContents => {
                self.emit("\\tableofcontents\n");
                Ok(())
            },
            Element::TitlePage => {
                self.emit("\\maketitle\n");
                Ok(())
            },
            Element::ClearPage => {
                self.emit("\\clearpage\n");
                Ok(())
            },
            Element::UserDefined(s) => {
                self.emit_line(s.as_str());
                Ok(())
            },
            Element::Align(equations) => self.visit_align(equations),
            Element::Environment(name, lines) => {
                self.emit_environment(name.as_str(), lines);
                Ok(())
            },
            Element::List(list) => self.visit_list(list),
            Element::Table(table) => self.visit_table(table),
            Element::Input(s) => {
                self.emit_wrapped("\\input{", s.as_str(), "}\n");
                Ok(())
            },
        }
    }

    fn visit_section(&mut self, section: &Section) -> (r: Result<(), Error>)
        ensures
            r is Ok,
            final(self)@ == appended(old(self)@, render_section(section@)),
        decreases section,
    {
        self.emit_wrapped("\\section{", section.name.as_str(), "}\n");
        self.emit_blank_line_if(!section.is_empty());
        let ghost start = self@;
        let ghost parts = section_parts(section@);
        let mut i: usize = 0;
        proof {
            lemma_no_part_written(self@, parts);
        }
        while i < section.elements.len()
            invariant
                i <= section.elements.len(),
                parts == section_parts(section@),
                self@ == appended(start, concat(parts.take(i as int))),
            decreases section.elements.len() - i,
        {
            let ghost before = self@;
            self.visit_element(&section.elements[i])?;
            self.emit("\n");
            proof {
                let child = render_element(section.elements@[i as int]@);
                assert(parts[i as int] == child + "\n"@);
                lemma_appended_2(before, child, "\n"@);
                lemma_part_written(start, parts, i as int);
            }
            i += 1;
        }
        proof {
            lemma_no_part_written(self@, parts);
            lemma_appended_3(
                old(self)@,
                wrapped("\\section{"@, section@.name, "}\n"@),
                blank_line_if(section@.elements.len() > 0),
                concat(parts),
            );
        }
        Ok(())
    }

    fn visit_document(&mut self, doc: &Document) -> (r: Result<(), Error>)
        ensures
            r is Ok,
            final(self)@ == appended(old(self)@, render_document(doc@)),
    {
        match doc.class {
            DocumentClass::Part => {
                self.emit_elements(&doc.elements);
            },
            _ => {
                let class = doc.class.to_string();
                self.emit_wrapped("\\documentclass{", class.as_str(), "}\n");
                self.visit_preamble(&doc.preamble)?;
                self.emit("\\begin{document}\n");
                self.emit_elements(&doc.elements);
                self.emit("\\end{document}\n");
                proof {
                    lemma_appended_5(
                        old(self)@,
                        wrapped("\\documentclass{"@, doc@.class.name(), "}\n"@),
                        render_preamble(doc@.preamble),
                        "\\begin{document}\n"@,
                        render_elements(doc@.elements),
                        "\\end{document}\n"@,
                    );
                }
            },
        }
        Ok(())
    }
}

impl Printer {
    /// Write a generic environment.
    fn emit_environment(&mut self, name: &str, lines: &Vec<String>)
        ensures
            final(self)@ == appended(
                old(self)@,
                render_environment(name@, lines@.map_values(|line: String| line@)),
            ),
    {
        self.emit_wrapped("\\begin{", name, "}\n");
        let ghost start = self@;
        let ghost parts = lines@.map_values(|line: String| line@).map_values(
            |line: Seq<char>| render_line(line),
        );
        let mut i: usize = 0;
        proof {
            lemma_no_part_written(self@, parts);
        }
        while i < lines.len()
            invariant
                i <= lines.len(),
                parts == lines@.map_values(|line: String| line@).map_values(
                    |line: Seq<char>| render_line(line),
                ),
                self@ == appended(start, concat(parts.take(i as int))),
            decreases lines.len() - i,
        {
            self.emit_line(lines[i].as_str());
            proof {
                assert(parts[i as int] == render_line(lines@[i as int]@));
                lemma_part_written(start, parts, i as int);
            }
            i += 1;
        }
        proof {
            lemma_no_part_written(self@, parts);
        }
        self.emit_wrapped("\\end{", name, "}\n");
        proof {
            lemma_appended_3(
                old(self)@,
                wrapped("\\begin{"@, name@, "}\n"@),
                concat(parts),
                wrapped("\\end{"@, name@, "}\n"@),
            );
        }
    }

    /// Write the elements of a document's body, one after another.
    fn emit_elements(&mut self, elements: &Vec<Element>)
        ensures
            final(self)@ == appended(
                old(self)@,
                render_elements(elements@.map_values(|e: Element| e@)),
            ),
    {
        let ghost parts = elements@.map_values(|e: Element| e@).map_values(
            |e: ElementView| render_element(e),
        );
        let mut i: usize = 0;
        proof {
            lemma_no_part_written(self@, parts);
        }
        while i < elements.len()
            invariant
                i <= elements.len(),
                parts == elements@.map_values(|e: Element| e@).map_values(
                    |e: ElementView| render_element(e),
                ),
                self@ == appended(old(self)@, concat(parts.take(i as int))),
            decreases elements.len() - i,
        {
            let _ = self.visit_element(&elements[i]);
            proof {
                assert(parts[i as int] == render_element(elements@[i as int]@));
                lemma_part_written(old(self)@, parts, i as int);
            }
            i += 1;
        }
        proof {
            lemma_no_part_written(self@, parts);
        }
    }
}

/// Decode a buffer of bytes as UTF-8 text.
pub fn text_from_utf8(bytes: Vec<u8>) -> (r: Result<String, Error>)
    ensures
        valid_utf8(bytes@) <==> r is Ok,
        r matches Ok(text) ==> text@ == decode_utf8(bytes@),
        r matches Err(e) ==> e == Error::Utf8,
{
    match string_from_utf8(bytes) {
        Some(text) => Ok(text),
        None => Err(Error::Utf8),
    }
}

/// `String::from_utf8` of the standard library: the bytes as a string where
/// they are valid UTF-8, and nothing where they are not.
#[verifier::external_body]
fn string_from_utf8(bytes: Vec<u8>) -> (text: Option<String>)
    ensures
        valid_utf8(bytes@) <==> text is Some,
        text matches Some(t) ==> t@ == decode_utf8(bytes@),
{
    String::from_utf8(bytes).ok()
}

/// Print a document to a string: the text that [`render_document`] gives
/// for it. This never fails.
pub fn print(doc: &Document) -> (r: Result<String, Error>)
    ensures
        r matches Ok(text) && text@ == render_document(doc@),
{
    let mut printer = Printer::new(Vec::new());
    printer.visit_document(doc)?;
    let buffer = printer.into_inner();
    proof {
        let text = render_document(doc@);
        assert(buffer@ =~= encode_utf8(text));
        vstd::utf8::encode_utf8_valid_utf8(text);
        vstd::utf8::encode_utf8_decode_utf8(text);
    }
    text_from_utf8(buffer)
}

} // verus!
