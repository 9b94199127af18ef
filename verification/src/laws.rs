//! Laws that hold of every document, proved from the definitions of
//! [`crate::render`] and from the contracts of the library's functions.

use crate::document::{
    Document, DocumentClassView, DocumentView, PreambleElementView, PreambleView,
};
use crate::element::{ElementView, SectionView};
use crate::equations::EquationView;
use crate::lists::{ListKind, ListView};
use crate::paragraph::ParagraphElementView;
use crate::printer::print;
use crate::render::{
    concat, render_column_spec, render_document, render_element, render_elements,
    render_equation, render_list, render_list_item, render_paragraph_element, render_preamble,
    render_preamble_element, render_section, section_parts, wrapped,
};
use crate::table::{
    default_column_settings, effective_settings, ColumnSettingsView, TableColumnSettings,
    TableView,
};
use crate::visitor::{elements_walked, elements_walked_through, visits_section, Error, Node};
use vstd::prelude::*;

verus! {

/// Printing is deterministic: whatever two calls of [`print`] on one
/// document return, both are `Ok` and hold the same text.
pub proof fn law_print_is_deterministic(
    doc: Document,
    first: Result<String, Error>,
    second: Result<String, Error>,
)
    requires
        call_ensures(print, (&doc,), first),
        call_ensures(print, (&doc,), second),
    ensures
        first is Ok,
        second is Ok,
        first->Ok_0@ == second->Ok_0@,
{
}

/// A document of a class other than `Part`, without preamble and without
/// elements, renders as the class declaration, the begin marker and the end
/// marker of the document: the preamble gives no line.
pub proof fn law_empty_document(class: DocumentClassView)
    requires
        !(class is Part),
    ensures
        render_document(
            DocumentView { class, preamble: PreambleView::empty(), elements: Seq::empty() },
        ) == wrapped("\\documentclass{"@, class.name(), "}\n"@) + "\\begin{document}\n"@
            + "\\end{document}\n"@,
{
    let doc = DocumentView { class, preamble: PreambleView::empty(), elements: Seq::empty() };
    let contents = doc.preamble.contents.map_values(
        |e: PreambleElementView| render_preamble_element(e),
    );
    assert(contents =~= Seq::empty());
    assert(render_preamble(doc.preamble) =~= Seq::empty());
    let elements = doc.elements.map_values(|e: ElementView| render_element(e));
    assert(elements =~= Seq::empty());
    assert(render_elements(doc.elements) =~= Seq::empty());
    assert(render_document(doc) =~= wrapped("\\documentclass{"@, class.name(), "}\n"@)
        + "\\begin{document}\n"@ + "\\end{document}\n"@);
}

/// A partial document renders as its elements and nothing else, whatever
/// its preamble holds.
pub proof fn law_partial_document(preamble: PreambleView, elements: Seq<ElementView>)
    ensures
        render_document(DocumentView { class: DocumentClassView::Part, preamble, elements })
            == render_elements(elements),
{
}

/// A preamble with a title and nothing else renders as the title line.
pub proof fn law_preamble_with_title_only(title: Seq<char>)
    ensures
        render_preamble(PreambleView { author: None, title: Some(title), contents: Seq::empty() })
            == wrapped("\\title{"@, title, "}\n"@),
{
    let preamble = PreambleView { author: None, title: Some(title), contents: Seq::empty() };
    let parts = preamble.contents.map_values(|e: PreambleElementView| render_preamble_element(e));
    assert(parts =~= Seq::empty());
    assert(render_preamble(preamble) =~= wrapped("\\title{"@, title, "}\n"@));
}

/// A preamble with at least one import or definition, a title and no
/// author renders as the lines of its contents in order, one blank line,
/// and the title line.
pub proof fn law_preamble_with_contents_and_title(
    contents: Seq<PreambleElementView>,
    title: Seq<char>,
)
    requires
        contents.len() >= 1,
    ensures
        render_preamble(PreambleView { author: None, title: Some(title), contents }) == concat(
            contents.map_values(|e: PreambleElementView| render_preamble_element(e)),
        ) + "\n"@ + wrapped("\\title{"@, title, "}\n"@),
{
    let preamble = PreambleView { author: None, title: Some(title), contents };
    assert(render_preamble(preamble) =~= concat(
        contents.map_values(|e: PreambleElementView| render_preamble_element(e)),
    ) + "\n"@ + wrapped("\\title{"@, title, "}\n"@));
}

/// A section without elements renders as its heading line and nothing
/// else.
pub proof fn law_empty_section(name: Seq<char>)
    ensures
        render_section(SectionView { name, elements: Seq::empty() }) == wrapped(
            "\\section{"@,
            name,
            "}\n"@,
        ),
{
    let section = SectionView { name, elements: Seq::empty() };
    assert(section_parts(section) =~= Seq::empty());
    assert(render_section(section) =~= wrapped("\\section{"@, name, "}\n"@));
}

/// A section with one element renders as the heading line, a blank line,
/// the element and a blank line.
pub proof fn law_section_with_one_element(name: Seq<char>, element: ElementView)
    ensures
        render_section(SectionView { name, elements: seq![element] }) == wrapped(
            "\\section{"@,
            name,
            "}\n"@,
        ) + "\n"@ + render_element(element) + "\n"@,
{
    let section = SectionView { name, elements: seq![element] };
    let parts = section_parts(section);
    assert(parts.drop_last() =~= Seq::empty());
    assert(parts.last() == render_element(element) + "\n"@);
    assert(concat(parts.drop_last()) =~= Seq::empty());
    assert(concat(parts) =~= render_element(element) + "\n"@);
    assert(render_section(section) =~= wrapped("\\section{"@, name, "}\n"@) + "\n"@
        + render_element(element) + "\n"@);
}

/// One more element at the end of a section that has elements adds that
/// element and a blank line to the end of what the section renders to: a
/// section with N elements ends each of the N with a blank line.
pub proof fn law_section_with_one_more_element(section: SectionView, element: ElementView)
    requires
        section.elements.len() >= 1,
    ensures
        render_section(
            SectionView { name: section.name, elements: section.elements.push(element) },
        ) == render_section(section) + render_element(element) + "\n"@,
{
    let longer = SectionView { name: section.name, elements: section.elements.push(element) };
    let parts = section_parts(longer);
    assert(parts.drop_last() =~= section_parts(section));
    assert(parts.last() == render_element(element) + "\n"@);
    let heading = wrapped("\\section{"@, section.name, "}\n"@);
    let done = concat(section_parts(section));
    let child = render_element(element);
    assert(render_section(longer) == heading + "\n"@ + (done + (child + "\n"@)));
    assert(heading + "\n"@ + (done + (child + "\n"@)) =~= heading + "\n"@ + done + child + "\n"@);
}

/// A list of three items renders as the begin marker of its kind, the
/// three item lines in the order of the items, and the end marker.
pub proof fn law_list_of_three_items(kind: ListKind, a: Seq<char>, b: Seq<char>, c: Seq<char>)
    ensures
        render_list(ListView { kind, argument: None, items: seq![a, b, c] }) == wrapped(
            "\\begin{"@,
            kind.name(),
            "}"@,
        ) + "\n"@ + wrapped("\\item "@, a, "\n"@) + wrapped("\\item "@, b, "\n"@) + wrapped(
            "\\item "@,
            c,
            "\n"@,
        ) + wrapped("\\end{"@, kind.name(), "}\n"@),
{
    let list = ListView { kind, argument: None, items: seq![a, b, c] };
    let parts = list.items.map_values(|item: Seq<char>| render_list_item(item));
    let one = parts.take(1);
    let two = parts.take(2);
    assert(one.drop_last() =~= Seq::empty());
    assert(concat(one.drop_last()) =~= Seq::empty());
    assert(concat(one) =~= render_list_item(a));
    assert(two.drop_last() =~= one);
    assert(concat(two) == concat(one) + render_list_item(b));
    assert(parts.drop_last() =~= two);
    assert(concat(parts) == concat(two) + render_list_item(c));
    let begin = wrapped("\\begin{"@, kind.name(), "}"@);
    let end = wrapped("\\end{"@, kind.name(), "}\n"@);
    assert(render_list(list) =~= begin + "\n"@ + render_list_item(a) + render_list_item(b)
        + render_list_item(c) + end);
}

/// The two kinds of list have different environment names.
pub proof fn law_list_kinds_differ()
    ensures
        ListKind::Enumerate.name() != ListKind::Itemize.name(),
{
    reveal_strlit("enumerate");
    reveal_strlit("itemize");
    assert(ListKind::Enumerate.name().len() != ListKind::Itemize.name().len());
}

/// With typed settings, the table spec has exactly one alignment letter
/// for each column of the table, however many settings were given.
pub proof fn law_column_spec_has_one_letter_per_column(table: TableView)
    requires
        table.column_settings is Typed,
    ensures
        render_column_spec(table).len() == table.number_columns(),
        forall|column: int|
            0 <= column < table.number_columns() ==> render_column_spec(table)[column]
                == effective_settings(
                table.column_settings->Typed_0,
                column,
            ).alignment.code(),
{
}

/// Where no settings were given, every column is left-justified.
pub proof fn law_default_column_spec(table: TableView)
    requires
        table.column_settings == ColumnSettingsView::Typed(Seq::empty()),
    ensures
        render_column_spec(table) == Seq::new(table.number_columns(), |column: int| 'l'),
{
    assert(render_column_spec(table) =~= Seq::new(table.number_columns(), |column: int| 'l'));
}

/// Replacing the settings of a column for which typed settings are given
/// changes the entry of that column and nothing else: the list is as long
/// as it was, and every other entry is what it was.
pub proof fn law_replace_given_column_settings(
    table: TableView,
    column: int,
    settings: TableColumnSettings,
)
    requires
        table.column_settings is Typed,
        0 <= column < table.typed_settings().len(),
    ensures
        ({
            let given = table.typed_settings();
            let replaced = table.replaced_settings(column, settings);
            &&& replaced.len() == given.len()
            &&& replaced[column] == settings
            &&& forall|other: int|
                0 <= other < given.len() && other != column ==> #[trigger] replaced[other]
                    == given[other]
        }),
{
}

/// Replacing the settings of a column for which no typed settings are given
/// (the settings are raw, or given for fewer columns) makes the settings
/// typed with an entry for every column of the table. The column has the
/// new settings, and the settings that hold for every other column are
/// what they were. Where the settings were raw, every other column has the
/// default settings.
pub proof fn law_replace_missing_column_settings(
    table: TableView,
    column: int,
    settings: TableColumnSettings,
)
    requires
        0 <= column < table.number_columns(),
        table.column_settings is Raw || table.typed_settings().len() <= column,
    ensures
        ({
            let replaced = table.replaced_settings(column, settings);
            &&& replaced.len() == table.number_columns()
            &&& replaced[column] == settings
            &&& forall|other: int|
                0 <= other < table.number_columns() && other != column
                    ==> #[trigger] replaced[other]
                    == effective_settings(table.typed_settings(), other)
            &&& table.column_settings is Raw ==> forall|other: int|
                0 <= other < table.number_columns() && other != column
                    ==> #[trigger] replaced[other]
                    == default_column_settings()
        }),
{
}

/// An equation with a label and without a number renders as its text, the
/// reference to the label, the mark of an unnumbered equation and the row
/// terminator, in this order.
pub proof fn law_labelled_unnumbered_equation(text: Seq<char>, label: Seq<char>)
    ensures
        render_equation(EquationView { text, label: Some(label), not_numbered: true }) == text
            + wrapped(" \\label{"@, label, "}"@) + " \\nonumber"@ + " \\\\\n"@,
{
}

/// Bold around italic around plain text renders as the bold command around
/// the italic command around the text: the commands are nested.
pub proof fn law_nested_formatting(text: Seq<char>)
    ensures
        render_paragraph_element(
            ParagraphElementView::Bold(
                Box::new(
                    ParagraphElementView::Italic(Box::new(ParagraphElementView::Plain(text))),
                ),
            ),
        ) == wrapped("\\textbf{"@, wrapped("\\textit{"@, text, "}"@), "}"@),
{
    reveal_with_fuel(render_paragraph_element, 3);
}

/// A walk over the elements of a section, which is what
/// [`crate::visitor::walk_section`] does, is a visit of the section: it is
/// what `visit_section` may do.
pub proof fn law_walked_section_is_visited<V>(
    visited: spec_fn(V, Node, V, Result<(), Error>) -> bool,
    before: V,
    section: SectionView,
    after: V,
    r: Result<(), Error>,
)
    requires
        elements_walked(visited, before, section.elements, after, r),
    ensures
        visits_section(visited, before, section, after, r),
{
    let states = choose|states: Seq<V>|
        elements_walked_through(visited, before, section.elements, states, after, r);
    assert(0 < states.len() && elements_walked_through(
        visited,
        before,
        section.elements,
        states,
        after,
        r,
    ));
}

} // verus!
