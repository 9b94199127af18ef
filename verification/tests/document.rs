use latex::{
    print, text_from_utf8, Align, Document, DocumentClass, Element, Equation, Error, IntoNode,
    List, ListKind, Paragraph, ParagraphElement, Preamble, PreambleElement, Printer, Section,
    Visitor,
};

fn print_preamble(preamble: &Preamble) -> String {
    let mut printer = Printer::new(Vec::new());
    printer.visit_preamble(preamble).unwrap();
    String::from_utf8(printer.into_inner()).unwrap()
}

fn print_element(element: &Element) -> String {
    let mut printer = Printer::new(Vec::new());
    printer.visit_element(element).unwrap();
    String::from_utf8(printer.into_inner()).unwrap()
}

#[test]
fn printing_twice_gives_the_same_text() {
    let mut doc = Document::new(DocumentClass::Report);
    doc.preamble.title("T").use_package("amsmath");
    let mut section = Section::new("S");
    section.push("text").push(Align::new());
    doc.push(section).push(Element::ClearPage);

    let first = print(&doc).unwrap();
    let second = print(&doc).unwrap();
    assert_eq!(first, second);
    assert_eq!(print(&doc.clone()).unwrap(), first);
}

#[test]
fn complete_document() {
    let mut doc = Document::new(DocumentClass::Article);
    doc.preamble.title("My Fancy Document");
    doc.preamble.author("Michael-F-Bryan");

    doc.push(Element::TitlePage)
        .push(Element::ClearPage)
        .push(Element::TableOfContents)
        .push(Element::ClearPage);

    let mut section_1 = Section::new("Section 1");
    section_1
        .push("Here is some text which will be put in paragraph 1.")
        .push("And here is some more text for paragraph 2.");
    doc.push(section_1);

    let mut section_2 = Section::new("Section 2");
    let equations: Align = "y &= mx + c".into_node();
    section_2.push("More text...").push(equations);
    doc.push(section_2);

    let expected = r#"\documentclass{article}
\title{My Fancy Document}
\author{Michael-F-Bryan}
\begin{document}
\maketitle
\clearpage
\tableofcontents
\clearpage
\section{Section 1}

Here is some text which will be put in paragraph 1.

And here is some more text for paragraph 2.

\section{Section 2}

More text...

\begin{align}
y &= mx + c \\
\end{align}

\end{document}
"#;
    assert_eq!(print(&doc).unwrap(), expected);
}

#[test]
fn document_classes() {
    assert_eq!(DocumentClass::Article.to_string(), "article");
    assert_eq!(DocumentClass::Book.to_string(), "book");
    assert_eq!(DocumentClass::Report.to_string(), "report");
    assert_eq!(DocumentClass::Part.to_string(), "");
    assert_eq!(DocumentClass::Other("memoir".to_string()).to_string(), "memoir");
    assert_eq!(DocumentClass::default(), DocumentClass::Article);

    let doc = Document::new(DocumentClass::Other("memoir".to_string()));
    assert_eq!(
        print(&doc).unwrap(),
        "\\documentclass{memoir}\n\\begin{document}\n\\end{document}\n"
    );
    let doc = Document::new(DocumentClass::Book);
    assert_eq!(
        print(&doc).unwrap(),
        "\\documentclass{book}\n\\begin{document}\n\\end{document}\n"
    );
}

#[test]
fn partial_document_has_elements_only() {
    let mut doc = Document::new(DocumentClass::Part);
    doc.preamble.title("never rendered").use_package("x");
    doc.push("one").push(Element::ClearPage);
    assert_eq!(print(&doc).unwrap(), "one\n\\clearpage\n");
}

#[test]
fn preamble_with_title_only() {
    let mut preamble = Preamble::default();
    preamble.title("Only");
    assert_eq!(print_preamble(&preamble), "\\title{Only}\n");
}

#[test]
fn preamble_with_imports_only() {
    let mut preamble = Preamble::default();
    assert!(preamble.is_empty());
    preamble.use_package("a");
    assert!(!preamble.is_empty());
    assert_eq!(print_preamble(&preamble), "\\usepackage{a}\n");
    assert_eq!(preamble.iter().count(), 1);
}

#[test]
fn preamble_with_import_and_author() {
    let mut preamble = Preamble::default();
    preamble.use_package("a").author("B");
    assert_eq!(print_preamble(&preamble), "\\usepackage{a}\n\n\\author{B}\n");
}

#[test]
fn preamble_empty() {
    assert_eq!(print_preamble(&Preamble::default()), "");
}

#[test]
fn title_set_twice_keeps_the_last() {
    let mut preamble = Preamble::default();
    preamble.title("first").title("second");
    assert_eq!(preamble.title, Some("second".to_string()));
    assert_eq!(print_preamble(&preamble), "\\title{second}\n");
}

#[test]
fn preamble_elements() {
    let mut preamble = Preamble::default();
    preamble
        .push(PreambleElement::UsePackage {
            package: "babel".to_string(),
            argument: Some("english".to_string()),
        })
        .new_command("vect", 1, r"\mathbf{#1}")
        .push(PreambleElement::NewCommand {
            name: "plus".to_string(),
            args_num: Some(12),
            default_arg: Some("2".to_string()),
            definition: "#1 + #2".to_string(),
        })
        .push(PreambleElement::NewCommand {
            name: "R".to_string(),
            args_num: None,
            default_arg: None,
            definition: r"\mathbb{R}".to_string(),
        })
        .push(PreambleElement::UserDefined(r"\pagestyle{empty}".to_string()));

    let expected = r#"\usepackage[english]{babel}
\newcommand{\vect}[1]{\mathbf{#1}}
\newcommand{\plus}[12][2]{#1 + #2}
\newcommand{\R}{\mathbb{R}}
\pagestyle{empty}
"#;
    assert_eq!(print_preamble(&preamble), expected);
}

#[test]
fn section_with_one_element() {
    let mut section = Section::new("S");
    assert!(section.is_empty());
    section.push(Element::ClearPage);
    assert!(!section.is_empty());
    assert_eq!(section.iter().count(), 1);
    assert_eq!(
        print_element(&Element::Section(section)),
        "\\section{S}\n\n\\clearpage\n\n"
    );
}

#[test]
fn nested_sections() {
    let mut inner = Section::new("Inner");
    inner.push("deep");
    let mut outer = Section::new("Outer");
    outer.push(inner).push("after");
    assert_eq!(
        print_element(&Element::Section(outer)),
        "\\section{Outer}\n\n\\section{Inner}\n\ndeep\n\n\nafter\n\n"
    );
}

#[test]
fn itemize_with_three_items() {
    let mut list = List::new(ListKind::Itemize);
    list.push("a").push("b").push("c");
    assert_eq!(list.iter().count(), 3);
    assert_eq!(
        print_element(&Element::List(list)),
        "\\begin{itemize}\n\\item a\n\\item b\n\\item c\n\\end{itemize}\n"
    );
}

#[test]
fn enumerate_with_argument_and_items() {
    let mut list = List::new(ListKind::Enumerate);
    list.argument = Some("label=(\\alph*)".to_string());
    list.push("x");
    assert_eq!(
        print_element(&Element::List(list)),
        "\\begin{enumerate}[label=(\\alph*)]\n\\item x\n\\end{enumerate}\n"
    );
    assert_eq!(ListKind::Enumerate.environment_name(), "enumerate");
    assert_eq!(ListKind::Itemize.environment_name(), "itemize");
}

#[test]
fn equation_with_label_and_without_number() {
    let mut eq = Equation::with_label("eq:1", "a &= b");
    eq.not_numbered();
    assert_eq!(eq.get_text(), "a &= b");
    assert_eq!(eq.get_label(), Some("eq:1"));
    assert!(!eq.is_numbered());

    let mut printer = Printer::new(Vec::new());
    printer.visit_equation(&eq).unwrap();
    assert_eq!(
        String::from_utf8(printer.into_inner()).unwrap(),
        "a &= b \\label{eq:1} \\nonumber \\\\\n"
    );
}

#[test]
fn equation_setters() {
    let mut eq = Equation::new("x");
    assert_eq!(eq.get_label(), None);
    assert!(eq.is_numbered());
    eq.text("y").label("l");
    assert_eq!(eq.get_text(), "y");
    assert_eq!(eq.get_label(), Some("l"));
    assert_eq!(eq.clone(), eq);

    let mut align = Align::new();
    align.push(eq).push("z");
    assert_eq!(align.iter().count(), 2);
    assert_eq!(align.as_slice()[1].get_text(), "z");
}

#[test]
fn nested_bold_italic() {
    let element = ParagraphElement::bold(ParagraphElement::italic("x"));
    assert_eq!(
        element,
        ParagraphElement::Bold(Box::new(ParagraphElement::Italic(Box::new(
            ParagraphElement::Plain("x".to_string())
        ))))
    );
    let mut para = Paragraph::new();
    para.push(element);
    assert_eq!(para.iter().count(), 1);
    assert_eq!(
        print_element(&Element::Para(para)),
        "\\textbf{\\textit{x}}\n"
    );
}

#[test]
fn paragraph_from_the_crate_documentation() {
    let mut p = Paragraph::new();
    p.push("Hello ")
        .push(ParagraphElement::italic("World"))
        .push("!")
        .push(" Here is an equation ")
        .push(ParagraphElement::InlineMath("y = mx + c".to_string()))
        .push(".");
    assert_eq!(
        print_element(&Element::Para(p)),
        "Hello \\textit{World}! Here is an equation $y = mx + c$.\n"
    );
}

#[test]
fn fixed_markers_and_raw_elements() {
    assert_eq!(print_element(&Element::TableOfContents), "\\tableofcontents\n");
    assert_eq!(print_element(&Element::TitlePage), "\\maketitle\n");
    assert_eq!(print_element(&Element::ClearPage), "\\clearpage\n");
    assert_eq!(
        print_element(&Element::UserDefined(r"\vspace{1cm} % {raw}".to_string())),
        "\\vspace{1cm} % {raw}\n"
    );
}

#[test]
fn generic_environment() {
    let element: Element = ("center", vec!["line & one", "line two"]).into_node();
    assert_eq!(
        element,
        Element::Environment(
            "center".to_string(),
            vec!["line & one".to_string(), "line two".to_string()]
        )
    );
    assert_eq!(
        print_element(&element),
        "\\begin{center}\nline & one\nline two\n\\end{center}\n"
    );
    assert_eq!(
        print_element(&Element::Environment("empty".to_string(), Vec::new())),
        "\\begin{empty}\n\\end{empty}\n"
    );
}

#[test]
fn text_becomes_a_paragraph_of_one_plain_run() {
    let element: Element = "some text".into_node();
    assert_eq!(
        element,
        Element::Para(Paragraph {
            elements: vec![ParagraphElement::Plain("some text".to_string())]
        })
    );
}

#[test]
fn text_outside_ascii() {
    let mut doc = Document::new(DocumentClass::Part);
    doc.push("Grüße, 世界 — ∑ 😀");
    assert_eq!(print(&doc).unwrap(), "Grüße, 世界 — ∑ 😀\n");
}

#[test]
fn push_doc_appends_the_elements_only() {
    let mut a = Document::new(DocumentClass::Article);
    a.preamble.title("A");
    a.push("a1").push(Element::ClearPage);

    let mut b = Document::new(DocumentClass::Part);
    b.preamble.title("B").author("b").use_package("p");
    b.push("b1").push(Section::new("b2"));

    let before = a.elements.clone();
    a.push_doc(&b);

    let mut expected = before;
    expected.extend(b.elements.iter().cloned());
    assert_eq!(a.elements, expected);
    assert_eq!(a.class, DocumentClass::Article);
    assert_eq!(a.preamble.title, Some("A".to_string()));
    assert_eq!(a.preamble.author, None);
    assert!(a.preamble.is_empty());
    assert_eq!(a.iter().count(), 4);
    assert_eq!(b.iter().count(), 2);
}

#[test]
fn printer_writes_behind_what_the_buffer_holds() {
    let mut printer = Printer::new(b"% header\n".to_vec());
    printer.visit_element(&Element::ClearPage).unwrap();
    assert_eq!(printer.into_inner(), b"% header\n\\clearpage\n".to_vec());
}

#[test]
fn bytes_that_are_text() {
    assert_eq!(text_from_utf8(b"plain".to_vec()), Ok("plain".to_string()));
    assert_eq!(
        text_from_utf8("Grüße 世界".as_bytes().to_vec()),
        Ok("Grüße 世界".to_string())
    );
    assert_eq!(text_from_utf8(Vec::new()), Ok(String::new()));
}

#[test]
fn bytes_that_are_not_text() {
    assert_eq!(text_from_utf8(vec![0xff]), Err(Error::Utf8));
    assert_eq!(text_from_utf8(vec![b'a', 0xc3]), Err(Error::Utf8));
    assert_eq!(text_from_utf8(vec![0xed, 0xa0, 0x80]), Err(Error::Utf8));

    let mut printer = Printer::new(vec![0xff]);
    printer.visit_element(&Element::ClearPage).unwrap();
    assert_eq!(text_from_utf8(printer.into_inner()), Err(Error::Utf8));
}

#[test]
fn standard_conversions() {
    assert_eq!(
        Element::from("text"),
        Element::Para(Paragraph {
            elements: vec![ParagraphElement::Plain("text".to_string())]
        })
    );
    assert_eq!(Paragraph::from("p").elements, vec![ParagraphElement::Plain("p".to_string())]);
    assert_eq!(ParagraphElement::from("e"), ParagraphElement::Plain("e".to_string()));

    let equation: Equation = "x &= 1".into();
    assert_eq!(equation, Equation::new("x &= 1"));
    let align = Align::from("y &= mx + c");
    assert_eq!(align.as_slice(), &[Equation::new("y &= mx + c")]);

    let section = Section::new("s");
    assert_eq!(Element::from(section.clone()), Element::Section(section));
    let list = List::new(ListKind::Enumerate);
    assert_eq!(Element::from(list.clone()), Element::List(list));
    assert_eq!(Element::from(align.clone()), Element::Align(align));
    let paragraph = Paragraph::new();
    assert_eq!(Element::from(paragraph.clone()), Element::Para(paragraph));
}

#[test]
fn a_document_is_its_elements() {
    let mut doc = Document::default();
    doc.push("a").push(Element::ClearPage);
    assert_eq!(doc.len(), 2);
    assert_eq!(doc[1], Element::ClearPage);
    assert_eq!(doc.class, DocumentClass::Article);

    let item = latex::Item("text".to_string());
    assert_eq!(item.len(), 4);
    assert_eq!(&*item, "text");
}
