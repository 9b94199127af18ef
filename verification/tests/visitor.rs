use latex::{
    walk_section, Align, Document, DocumentClass, Element, Equation, Error, Item, List, ListKind,
    Paragraph, ParagraphElement, Preamble, Section, Table, Visitor,
};

/// Records the order in which the nodes are visited.
struct Recorder {
    seen: Vec<String>,
}

impl Visitor for Recorder {
    fn visit_preamble(&mut self, _preamble: &Preamble) -> Result<(), Error> {
        self.seen.push("preamble".to_string());
        Ok(())
    }

    fn visit_paragraph_element(&mut self, element: &ParagraphElement) -> Result<(), Error> {
        if let ParagraphElement::Plain(text) = element {
            self.seen.push(format!("text {}", text));
        }
        Ok(())
    }

    fn visit_section(&mut self, section: &Section) -> Result<(), Error> {
        self.seen.push(format!("section {}", section.name));
        walk_section(self, section)
    }

    fn visit_equation(&mut self, equation: &Equation) -> Result<(), Error> {
        self.seen.push(format!("equation {}", equation.get_text()));
        Ok(())
    }

    fn visit_list_item(&mut self, item: &Item) -> Result<(), Error> {
        self.seen.push(format!("item {}", item.as_str()));
        Ok(())
    }

    fn visit_table(&mut self, table: &Table) -> Result<(), Error> {
        self.seen.push(format!("table {}", table.content.len()));
        Ok(())
    }

    fn visit_user_defined_line(&mut self, line: &str) -> Result<(), Error> {
        self.seen.push(format!("line {}", line));
        Ok(())
    }

    fn visit_input(&mut self, input: &str) -> Result<(), Error> {
        self.seen.push(format!("input {}", input));
        Ok(())
    }

    fn visit_custom_environment(&mut self, name: &str, lines: &[String]) -> Result<(), Error> {
        self.seen.push(format!("environment {} {}", name, lines.len()));
        Ok(())
    }
}

fn sample() -> Document {
    let mut doc = Document::new(DocumentClass::Article);
    doc.push("first");
    let mut inner = Section::new("inner");
    let mut list = List::new(ListKind::Itemize);
    list.push("i1").push("i2");
    let mut align = Align::new();
    align.push("e1");
    inner.push(list).push(align);
    let mut outer = Section::new("outer");
    outer.push("second").push(inner).push(Element::ClearPage);
    let mut table = Table::new();
    table.push_row(["a"]);
    doc.push(outer)
        .push(table)
        .push(Element::UserDefined("raw".to_string()))
        .push(Element::Input("file.tex".to_string()))
        .push(Element::Environment("env".to_string(), vec!["l".to_string()]))
        .push(Element::TableOfContents)
        .push("last");
    doc
}

#[test]
fn default_methods_walk_in_document_order() {
    let mut recorder = Recorder { seen: Vec::new() };
    recorder.visit_document(&sample()).unwrap();
    assert_eq!(
        recorder.seen,
        vec![
            "preamble",
            "text first",
            "section outer",
            "text second",
            "section inner",
            "item i1",
            "item i2",
            "equation e1",
            "table 1",
            "line raw",
            "input file.tex",
            "environment env 1",
            "text last",
        ]
    );
}

#[test]
fn partial_document_skips_the_preamble() {
    let mut doc = Document::new(DocumentClass::Part);
    doc.push("only");
    let mut recorder = Recorder { seen: Vec::new() };
    recorder.visit_document(&doc).unwrap();
    assert_eq!(recorder.seen, vec!["text only"]);
}

/// Fails at the paragraph element with the given text.
struct FailsAt {
    text: &'static str,
    visited: usize,
}

impl Visitor for FailsAt {
    fn visit_paragraph_element(&mut self, element: &ParagraphElement) -> Result<(), Error> {
        self.visited += 1;
        match element {
            ParagraphElement::Plain(text) if text == self.text => Err(Error::Io),
            _ => Ok(()),
        }
    }

    fn visit_section(&mut self, section: &Section) -> Result<(), Error> {
        walk_section(self, section)
    }
}

#[test]
fn the_first_error_ends_the_walk() {
    let mut visitor = FailsAt { text: "second", visited: 0 };
    assert_eq!(visitor.visit_document(&sample()), Err(Error::Io));
    assert_eq!(visitor.visited, 2);

    let mut visitor = FailsAt { text: "first", visited: 0 };
    assert_eq!(visitor.visit_document(&sample()), Err(Error::Io));
    assert_eq!(visitor.visited, 1);

    let mut visitor = FailsAt { text: "missing", visited: 0 };
    assert_eq!(visitor.visit_document(&sample()), Ok(()));
    assert_eq!(visitor.visited, 3);
}

/// Implements nothing but what it must.
struct Idle;

impl Visitor for Idle {
    fn visit_section(&mut self, _section: &Section) -> Result<(), Error> {
        Ok(())
    }
}

#[test]
fn default_leaf_methods_do_nothing() {
    let mut idle = Idle;
    assert_eq!(idle.visit_document(&sample()), Ok(()));
    assert_eq!(idle.visit_paragraph(&Paragraph::new()), Ok(()));
    assert_eq!(idle.visit_equation(&Equation::new("x")), Ok(()));
    assert_eq!(idle.visit_input("x"), Ok(()));
}
