use latex::{
    print, ColumnAlignment, Document, DocumentClass, Element, IntoTableRow, Table,
    TableColumnSettings, TableColumnSettingsWrapper, TableHLine, TableRow,
};

fn render(table: Table) -> String {
    let mut doc = Document::new(DocumentClass::Part);
    doc.push(Element::Table(table));
    print(&doc).unwrap()
}

#[test]
fn table_in_a_document() {
    let mut table = Table::new();
    table.push_row(["a", "b"]);
    table.push_row([1, 1]);

    let mut doc = Document::new(DocumentClass::Article);
    doc.push(Element::Table(table));

    let expected = r#"\documentclass{article}
\begin{document}
\begin{tabular}{ll}
a & b \\
1 & 1 \\
\end{tabular}
\end{document}
"#;
    assert_eq!(print(&doc).unwrap(), expected);
}

#[test]
fn table_with_centered_columns() {
    let mut table = Table::new();
    table.push_row(["a", "b"]);
    table.push_row([1, 1]);

    let column_settings = TableColumnSettings::default().alignment(ColumnAlignment::Center);
    table.column_settings = TableColumnSettingsWrapper::Typed(vec![column_settings; 2]);

    let expected = r#"\begin{tabular}{cc}
a & b \\
1 & 1 \\
\end{tabular}
"#;
    assert_eq!(render(table), expected);
}

#[test]
fn number_columns_is_the_widest_row() {
    let mut table = Table::new();
    assert_eq!(table.number_columns(), 0);
    table.push_row(["a", "b"]);
    assert_eq!(table.number_columns(), 2);
    table.push_row(["c", "d", "e"]);
    assert_eq!(table.number_columns(), 3);
    table.push_row(["f"]);
    assert_eq!(table.number_columns(), 3);
}

#[test]
fn default_settings_give_one_letter_per_column() {
    let mut table = Table::new();
    table.push_row(["a", "b"]);
    table.push_row(["c", "d", "e"]);

    let expected = "\\begin{tabular}{lll}\na & b \\\\\nc & d & e \\\\\n\\end{tabular}\n";
    assert_eq!(render(table), expected);
}

#[test]
fn empty_table() {
    let table = Table::new();
    assert!(table.is_empty());
    assert_eq!(render(table), "\\begin{tabular}{}\n\\end{tabular}\n");
}

#[test]
fn horizontal_line_row() {
    let mut table = Table::new();
    table.push_row(TableHLine::default());

    assert_eq!(&table.content[0].content[0], r"\hline");
    assert_eq!(table.content[0].columns, None);
    assert!(table.content[0].skip_explicit_new_row);
    assert_eq!(table.number_columns(), 0);
    assert!(!table.is_empty());
}

#[test]
fn horizontal_line_has_no_row_terminator() {
    let mut table = Table::new();
    table
        .push_row(["Example A", "Example B"])
        .push_row(TableHLine::default())
        .push_row([1, 1, 3]);

    let expected = "\\begin{tabular}{lll}\nExample A & Example B \\\\\n\\hline\n1 & 1 & 3 \\\\\n\\end{tabular}\n";
    assert_eq!(render(table), expected);
}

#[test]
fn raw_column_settings_stand_as_they_are() {
    let raw = r"|>{\centering\arraybackslash}p{2cm}|c|";
    let mut table = Table::new();
    table.column_settings = TableColumnSettingsWrapper::Raw(raw.to_string());
    table.push_row(["a", "b"]);

    let expected = format!("\\begin{{tabular}}{{{}}}\na & b \\\\\n\\end{{tabular}}\n", raw);
    assert_eq!(render(table), expected);
}

#[test]
fn missing_settings_are_those_of_the_last_column() {
    let mut table = Table::new();
    table.push_row([1, 2, 3]);
    table.column_settings = TableColumnSettingsWrapper::Typed(vec![
        TableColumnSettings { alignment: ColumnAlignment::Left },
        TableColumnSettings { alignment: ColumnAlignment::Right },
    ]);
    assert_eq!(render(table.clone()), "\\begin{tabular}{lrr}\n1 & 2 & 3 \\\\\n\\end{tabular}\n");

    table.column_settings = TableColumnSettingsWrapper::Typed(vec![TableColumnSettings {
        alignment: ColumnAlignment::Center,
    }]);
    assert_eq!(render(table), "\\begin{tabular}{ccc}\n1 & 2 & 3 \\\\\n\\end{tabular}\n");
}

#[test]
fn settings_beyond_the_last_column_are_not_rendered() {
    let mut table = Table::new();
    table.push_row(["x"]);
    table.column_settings = TableColumnSettingsWrapper::Typed(vec![
        TableColumnSettings { alignment: ColumnAlignment::Right },
        TableColumnSettings { alignment: ColumnAlignment::Center },
    ]);
    assert_eq!(render(table), "\\begin{tabular}{r}\nx \\\\\n\\end{tabular}\n");
}

#[test]
fn replace_column_settings_changes_one_column() {
    let mut table = Table::new();
    table.push_row(["a", "b", "c"]);
    table.column_settings = TableColumnSettingsWrapper::Typed(vec![
        TableColumnSettings { alignment: ColumnAlignment::Center },
        TableColumnSettings { alignment: ColumnAlignment::Center },
        TableColumnSettings { alignment: ColumnAlignment::Center },
    ]);
    table.replace_column_settings(1, TableColumnSettings { alignment: ColumnAlignment::Right });

    assert_eq!(
        table.column_settings,
        TableColumnSettingsWrapper::Typed(vec![
            TableColumnSettings { alignment: ColumnAlignment::Center },
            TableColumnSettings { alignment: ColumnAlignment::Right },
            TableColumnSettings { alignment: ColumnAlignment::Center },
        ])
    );
    assert_eq!(render(table), "\\begin{tabular}{crc}\na & b & c \\\\\n\\end{tabular}\n");
}

#[test]
fn replace_column_settings_fills_missing_columns() {
    let mut table = Table::new();
    table.push_row(["a", "b", "c"]);
    table.column_settings = TableColumnSettingsWrapper::Typed(vec![TableColumnSettings {
        alignment: ColumnAlignment::Center,
    }]);
    table.replace_column_settings(2, TableColumnSettings { alignment: ColumnAlignment::Right });

    assert_eq!(
        table.column_settings,
        TableColumnSettingsWrapper::Typed(vec![
            TableColumnSettings { alignment: ColumnAlignment::Center },
            TableColumnSettings { alignment: ColumnAlignment::Center },
            TableColumnSettings { alignment: ColumnAlignment::Right },
        ])
    );
}

#[test]
fn replace_column_settings_on_raw_settings() {
    let mut table = Table::new();
    table.push_row(["a", "b", "c"]);
    table.column_settings = TableColumnSettingsWrapper::Raw("|c|c|c|".to_string());
    table.replace_column_settings(1, TableColumnSettings { alignment: ColumnAlignment::Center });

    assert_eq!(
        table.column_settings,
        TableColumnSettingsWrapper::Typed(vec![
            TableColumnSettings { alignment: ColumnAlignment::Left },
            TableColumnSettings { alignment: ColumnAlignment::Center },
            TableColumnSettings { alignment: ColumnAlignment::Left },
        ])
    );
    assert_eq!(render(table), "\\begin{tabular}{lcl}\na & b & c \\\\\n\\end{tabular}\n");
}

#[test]
fn replace_column_settings_on_a_table_without_settings() {
    let mut table = Table::new();
    table.push_row(["a", "b"]);
    table.replace_column_settings(0, TableColumnSettings { alignment: ColumnAlignment::Right });
    assert_eq!(render(table), "\\begin{tabular}{rl}\na & b \\\\\n\\end{tabular}\n");
}

#[test]
fn insert_and_replace_rows() {
    let mut table = Table::new();
    table.insert_row(0, ["a", "b"]);
    table.push_row(["e", "f"]);
    table.insert_row(1, ["c", "d"]);
    assert_eq!(table.content.len(), 3);
    assert_eq!(table.content[1].content, vec!["c".to_string(), "d".to_string()]);

    table.replace_row(0, ["x", "y", "z"]);
    assert_eq!(table.content.len(), 3);
    assert_eq!(table.content[0].content.len(), 3);
    assert_eq!(table.number_columns(), 3);
    assert_eq!(table.iter_row().count(), 3);

    table.insert_row(3, ["last"]);
    assert_eq!(table.content[3].content, vec!["last".to_string()]);
}

#[test]
fn rows_from_vectors_and_numbers() {
    let row = vec!["a".to_string(), "b".to_string()].into_table_row();
    assert_eq!(row.content, vec!["a".to_string(), "b".to_string()]);
    assert_eq!(row.columns, Some(2));
    assert!(!row.skip_explicit_new_row);

    let row = [0i64, -7, 12345, i64::MIN, i64::MAX].into_table_row();
    assert_eq!(
        row.content,
        vec![
            "0".to_string(),
            "-7".to_string(),
            "12345".to_string(),
            "-9223372036854775808".to_string(),
            "9223372036854775807".to_string(),
        ]
    );
    assert_eq!(row.columns, Some(5));

    let row = vec![10u64, 99, 100, u64::MAX].into_table_row();
    assert_eq!(
        row.content,
        vec![
            "10".to_string(),
            "99".to_string(),
            "100".to_string(),
            "18446744073709551615".to_string(),
        ]
    );

    let row = Vec::<u32>::new().into_table_row();
    assert!(row.content.is_empty());
    assert_eq!(row.columns, Some(0));
}

#[test]
fn push_item_does_not_count_columns() {
    let mut row = TableRow::default();
    row.push_item("a").push_item(5u32);
    assert_eq!(row.content, vec!["a".to_string(), "5".to_string()]);
    assert_eq!(row.columns, None);

    let mut table = Table::new();
    table.content.push(row);
    assert_eq!(table.number_columns(), 0);
    assert_eq!(render(table), "\\begin{tabular}{}\na & 5 \\\\\n\\end{tabular}\n");
}

#[test]
fn column_settings_wrapper_is_empty() {
    assert!(TableColumnSettingsWrapper::default().is_empty());
    assert!(TableColumnSettingsWrapper::Raw(String::new()).is_empty());
    assert!(!TableColumnSettingsWrapper::Raw("c".to_string()).is_empty());
    assert!(!TableColumnSettingsWrapper::Typed(vec![TableColumnSettings::default()]).is_empty());
}

#[test]
fn alignment_letters_and_defaults() {
    assert_eq!(ColumnAlignment::Left.as_str(), "l");
    assert_eq!(ColumnAlignment::Right.as_str(), "r");
    assert_eq!(ColumnAlignment::Center.as_str(), "c");
    assert_eq!(ColumnAlignment::default(), ColumnAlignment::Left);
    assert_eq!(TableColumnSettings::default().alignment, ColumnAlignment::Left);

    let mut settings = TableColumnSettings::default();
    let changed = settings.alignment(ColumnAlignment::Right);
    assert_eq!(settings.alignment, ColumnAlignment::Right);
    assert_eq!(changed, settings);
}

#[test]
fn column_settings_from_values() {
    let center = TableColumnSettings { alignment: ColumnAlignment::Center };
    assert_eq!(
        TableColumnSettingsWrapper::from(vec![center, center]),
        TableColumnSettingsWrapper::Typed(vec![center, center])
    );
    assert_eq!(
        TableColumnSettingsWrapper::from(center),
        TableColumnSettingsWrapper::Typed(vec![center])
    );
    assert_eq!(
        TableColumnSettingsWrapper::from("|c|"),
        TableColumnSettingsWrapper::Raw("|c|".to_string())
    );
    assert_eq!(
        TableColumnSettingsWrapper::from("|l|".to_string()),
        TableColumnSettingsWrapper::Raw("|l|".to_string())
    );

    let mut table = Table::new();
    table.push_row(["Example A", "Example B"]).push_row([1, 1, 3]);
    table.column_settings = center.into();
    assert_eq!(
        render(table),
        "\\begin{tabular}{ccc}\nExample A & Example B \\\\\n1 & 1 & 3 \\\\\n\\end{tabular}\n"
    );
}

#[test]
fn replace_column_settings_keeps_the_length_of_given_settings() {
    let mut table = Table::new();
    table.push_row(["a", "b"]);
    table.column_settings = TableColumnSettingsWrapper::Typed(vec![TableColumnSettings {
        alignment: ColumnAlignment::Left,
    }]);
    table.replace_column_settings(0, TableColumnSettings { alignment: ColumnAlignment::Right });

    assert_eq!(
        table.column_settings,
        TableColumnSettingsWrapper::Typed(vec![TableColumnSettings {
            alignment: ColumnAlignment::Right
        }])
    );
    assert_eq!(render(table), "\\begin{tabular}{rr}\na & b \\\\\n\\end{tabular}\n");
}

#[test]
fn replace_column_settings_keeps_settings_beyond_the_table() {
    let center = TableColumnSettings { alignment: ColumnAlignment::Center };
    let right = TableColumnSettings { alignment: ColumnAlignment::Right };
    let mut table = Table::new();
    table.push_row(["a", "b"]);
    table.column_settings = TableColumnSettingsWrapper::Typed(vec![center, center, center]);
    table.replace_column_settings(1, right);
    assert_eq!(
        table.column_settings,
        TableColumnSettingsWrapper::Typed(vec![center, right, center])
    );
}

#[test]
fn rows_of_every_integer_type() {
    assert_eq!([0u8, 255].into_table_row().content, vec!["0", "255"]);
    assert_eq!([u16::MAX].into_table_row().content, vec!["65535"]);
    assert_eq!([u32::MAX].into_table_row().content, vec!["4294967295"]);
    assert_eq!(
        [u128::MAX].into_table_row().content,
        vec!["340282366920938463463374607431768211455"]
    );
    assert_eq!([usize::MIN, 42].into_table_row().content, vec!["0", "42"]);
    assert_eq!([i8::MIN, -1, 0, i8::MAX].into_table_row().content, vec!["-128", "-1", "0", "127"]);
    assert_eq!([i16::MIN].into_table_row().content, vec!["-32768"]);
    assert_eq!([i32::MIN, 10].into_table_row().content, vec!["-2147483648", "10"]);
    assert_eq!(
        [i128::MIN, i128::MAX].into_table_row().content,
        vec![
            "-170141183460469231731687303715884105728",
            "170141183460469231731687303715884105727"
        ]
    );
    assert_eq!([-5isize, 5].into_table_row().content, vec!["-5", "5"]);
}

#[test]
fn rows_of_truth_values_and_characters() {
    let row = [true, false].into_table_row();
    assert_eq!(row.content, vec!["true", "false"]);
    assert_eq!(row.columns, Some(2));

    let row = vec!['a', 'é', '世', '&'].into_table_row();
    assert_eq!(row.content, vec!["a", "é", "世", "&"]);
    assert_eq!(row.columns, Some(4));

    let mut table = Table::new();
    table.push_row(['x', 'y']).push_row([true, false]);
    assert_eq!(
        render(table),
        "\\begin{tabular}{ll}\nx & y \\\\\ntrue & false \\\\\n\\end{tabular}\n"
    );
}
