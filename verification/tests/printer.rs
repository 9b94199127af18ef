use latex::ParagraphElement::{Bold, InlineMath, Italic, Plain};
use latex::{
    Align, Document, DocumentClass, Element, Equation, List, ListKind, Paragraph, Preamble,
    Printer, Section, Visitor,
};

#[test]
fn create_simple_paragraph() {
    let should_be = "Hello World\n";

    let mut para = Paragraph::new();
    para.push_text("Hello World");

    let mut printer = Printer::new(Vec::new());
    printer.visit_paragraph(&para).unwrap();
    let buffer = printer.into_inner();

    assert_eq!(String::from_utf8(buffer).unwrap(), should_be);
}

#[test]
fn paragraph_with_bold_text() {
    let should_be = "Hello \\textbf{World}\n";

    let mut para = Paragraph::new();
    para.push_text("Hello ");
    para.push(Bold(Box::new(Plain("World".to_string()))));

    let mut printer = Printer::new(Vec::new());
    printer.visit_paragraph(&para).unwrap();
    let buffer = printer.into_inner();

    assert_eq!(String::from_utf8(buffer).unwrap(), should_be);
}

#[test]
fn paragraph_with_italic_text() {
    let should_be = "Hello \\textit{World}\n";

    let mut para = Paragraph::new();
    para.push_text("Hello ");
    para.push(Italic(Box::new(Plain("World".to_string()))));

    let mut printer = Printer::new(Vec::new());
    printer.visit_paragraph(&para).unwrap();
    let buffer = printer.into_inner();

    assert_eq!(String::from_utf8(buffer).unwrap(), should_be);
}

#[test]
fn inline_code() {
    let should_be = "Hello $\\lambda$ World!\n";

    let mut para = Paragraph::new();
    para.push_text("Hello ")
        .push(InlineMath(r"\lambda".to_string()))
        .push_text(" World!");

    let mut printer = Printer::new(Vec::new());
    printer.visit_paragraph(&para).unwrap();
    let buffer = printer.into_inner();

    assert_eq!(String::from_utf8(buffer).unwrap(), should_be);
}

#[test]
fn preamble_with_author_and_title() {
    let should_be = r#"\title{Sample Document}
\author{Michael-F-Bryan}
"#;

    let mut preamble = Preamble::default();
    preamble.title("Sample Document").author("Michael-F-Bryan");

    let mut printer = Printer::new(Vec::new());
    printer.visit_preamble(&preamble).unwrap();
    let buffer = printer.into_inner();

    assert_eq!(String::from_utf8(buffer).unwrap(), should_be);
}

#[test]
fn preamble_with_title_and_package_imports() {
    let should_be = r#"\usepackage{amsmath}
\usepackage{graphics}

\title{Sample Document}
"#;

    let mut preamble = Preamble::default();
    preamble
        .title("Sample Document")
        .use_package("amsmath")
        .use_package("graphics");

    let mut printer = Printer::new(Vec::new());
    printer.visit_preamble(&preamble).unwrap();
    let buffer = printer.into_inner();

    assert_eq!(String::from_utf8(buffer).unwrap(), should_be);
}

#[test]
fn render_empty_document() {
    let should_be = r#"\documentclass{article}
\begin{document}
\end{document}
"#;

    let doc = Document::new(DocumentClass::Article);

    let mut printer = Printer::new(Vec::new());
    printer.visit_document(&doc).unwrap();
    let buffer = printer.into_inner();

    assert_eq!(String::from_utf8(buffer).unwrap(), should_be);
}

#[test]
fn render_enumerated_list() {
    let should_be = "\\begin{enumerate}\n\\end{enumerate}\n";

    let list = List::new(ListKind::Enumerate);

    let mut printer = Printer::new(Vec::new());
    printer.visit_list(&list).unwrap();
    let buffer = printer.into_inner();

    assert_eq!(String::from_utf8(buffer).unwrap(), should_be);
}

#[test]
fn render_empty_itemize_list() {
    let should_be = "\\begin{itemize}\n\\end{itemize}\n";

    let list = List::new(ListKind::Itemize);

    let mut printer = Printer::new(Vec::new());
    printer.visit_list(&list).unwrap();
    let buffer = printer.into_inner();

    assert_eq!(String::from_utf8(buffer).unwrap(), should_be);
}

#[test]
fn render_list_with_items() {
    let should_be = r"\begin{itemize}
\item This
\item is
\item a
\item list!
\end{itemize}
";

    let mut list = List::new(ListKind::Itemize);
    list.push("This").push("is").push("a").push("list!");

    let mut printer = Printer::new(Vec::new());
    printer.visit_list(&list).unwrap();
    let buffer = printer.into_inner();

    assert_eq!(String::from_utf8(buffer).unwrap(), should_be);
}

#[test]
fn render_list_with_argument() {
    let should_be = r"\begin{itemize}[noitemsep]
\end{itemize}
";

    let mut list = List::new(ListKind::Itemize);
    list.argument = Some("noitemsep".to_string());

    let mut printer = Printer::new(Vec::new());
    printer.visit_list(&list).unwrap();
    let buffer = printer.into_inner();

    assert_eq!(String::from_utf8(buffer).unwrap(), should_be);
}

#[test]
fn render_blank_section() {
    let should_be = "\\section{First Section}\n";

    let section = Section::new("First Section");

    let mut printer = Printer::new(Vec::new());
    printer.visit_section(&section).unwrap();
    let buffer = printer.into_inner();

    assert_eq!(String::from_utf8(buffer).unwrap(), should_be);
}

#[test]
fn section_with_paragraphs() {
    let should_be = r#"\section{First Section}

Lorem Ipsum...

Hello World!

"#;

    let mut section = Section::new("First Section");
    section.push("Lorem Ipsum...").push("Hello World!");

    let mut printer = Printer::new(Vec::new());
    printer.visit_section(&section).unwrap();
    let buffer = printer.into_inner();

    assert_eq!(String::from_utf8(buffer).unwrap(), should_be);
}

#[test]
fn render_empty_align() {
    let should_be = "\\begin{align}\n\\end{align}\n";

    let equations = Align::new();

    let mut printer = Printer::new(Vec::new());
    printer.visit_align(&equations).unwrap();
    let buffer = printer.into_inner();

    assert_eq!(String::from_utf8(buffer).unwrap(), should_be);
}

#[test]
fn render_simple_equation() {
    let should_be = "x &= y + \\sigma \\\\\n";
    let eq = Equation::new(r"x &= y + \sigma");

    let mut printer = Printer::new(Vec::new());
    printer.visit_equation(&eq).unwrap();
    let buffer = printer.into_inner();

    assert_eq!(String::from_utf8(buffer).unwrap(), should_be);
}

#[test]
fn render_several_equations() {
    let should_be = r"\begin{align}
E &= m c^2 \label{eq:mass-energy-equivalence} \\
y &= m x + c \\
\end{align}
";

    let mut equations = Align::new();

    equations
        .push(Equation::with_label(
            "eq:mass-energy-equivalence",
            "E &= m c^2",
        ))
        .push("y &= m x + c");

    let mut printer = Printer::new(Vec::new());
    printer.visit_align(&equations).unwrap();
    let buffer = printer.into_inner();

    assert_eq!(String::from_utf8(buffer).unwrap(), should_be);
}

#[test]
fn equation_with_label() {
    let should_be = "E &= m c^2 \\label{eq:mass-energy-equivalence} \\\\\n";

    let mut eq = Equation::new("E &= m c^2");
    eq.label("eq:mass-energy-equivalence");

    let mut printer = Printer::new(Vec::new());
    printer.visit_equation(&eq).unwrap();
    let buffer = printer.into_inner();

    assert_eq!(String::from_utf8(buffer).unwrap(), should_be);
}

#[test]
fn equation_with_no_numbering() {
    let should_be = "E &= m c^2 \\nonumber \\\\\n";

    let mut eq = Equation::new("E &= m c^2");
    eq.not_numbered();

    let mut printer = Printer::new(Vec::new());
    printer.visit_equation(&eq).unwrap();
    let buffer = printer.into_inner();

    assert_eq!(String::from_utf8(buffer).unwrap(), should_be);
}

#[test]
fn partial_document() {
    let should_be = "";
    let doc = Document::new(DocumentClass::Part);

    let mut printer = Printer::new(Vec::new());
    printer.visit_document(&doc).unwrap();
    let buffer = printer.into_inner();

    assert_eq!(String::from_utf8(buffer).unwrap(), should_be);
}

#[test]
fn input_statement() {
    let should_be = "\\input{test.tex}\n";
    let input = Element::Input("test.tex".into());

    let mut printer = Printer::new(Vec::new());
    printer.visit_element(&input).unwrap();
    let buffer = printer.into_inner();

    assert_eq!(String::from_utf8(buffer).unwrap(), should_be);
}
