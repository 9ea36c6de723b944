use sqlx_with::emit::{record_text, request_text, routine_text, string_literal, value_text};
use sqlx_with::expand::expand_derive;
use sqlx_with::plan::{ExtractionPlan, FieldPlan};
use sqlx_with::record::{Annotation, GenerationError, Generics, RawField, RawRecord, Shape};

const DEFAULT_ARM: &str = " { ::std::result::Result::Err(::sqlx::Error::ColumnNotFound(_)) => ::std::result::Result::Ok(::std::default::Default::default()), val => val, }?";

fn plan_of(field: &str, column: &str, decoder: Option<&str>, use_default: bool) -> FieldPlan {
    FieldPlan {
        field: field.to_string(),
        column: column.to_string(),
        decoder: decoder.map(str::to_string),
        use_default,
    }
}

fn no_generics() -> Generics {
    Generics { impl_params: String::new(), type_args: String::new(), where_clause: String::new() }
}

fn pair(key: &str, value: &str) -> Annotation {
    Annotation { key: key.to_string(), value: Some(value.to_string()) }
}

fn flag(key: &str) -> Annotation {
    Annotation { key: key.to_string(), value: None }
}

#[test]
fn literal_of_plain_text() {
    assert_eq!(string_literal(""), "\"\"");
    assert_eq!(string_literal("x"), "\"x\"");
    assert_eq!(string_literal("foo-bar"), "\"foo-bar\"");
    assert_eq!(string_literal("Foo Bar_9 ~!"), "\"Foo Bar_9 ~!\"");
    assert_eq!(string_literal("it's"), "\"it's\"");
}

#[test]
fn literal_escapes_quote_and_backslash() {
    assert_eq!(string_literal("\""), "\"\\\"\"");
    assert_eq!(string_literal("\\"), "\"\\\\\"");
    assert_eq!(string_literal("a\"b\\c"), "\"a\\\"b\\\\c\"");
}

#[test]
fn literal_writes_other_characters_by_code() {
    assert_eq!(string_literal("\n"), "\"\\u{a}\"");
    assert_eq!(string_literal("\0"), "\"\\u{0}\"");
    assert_eq!(string_literal("\t"), "\"\\u{9}\"");
    assert_eq!(string_literal("\u{1f}"), "\"\\u{1f}\"");
    assert_eq!(string_literal("\u{7f}"), "\"\\u{7f}\"");
    assert_eq!(string_literal("é"), "\"\\u{e9}\"");
    assert_eq!(string_literal("日本"), "\"\\u{65e5}\\u{672c}\"");
    assert_eq!(string_literal("\u{10ffff}"), "\"\\u{10ffff}\"");
    assert_eq!(string_literal("\u{10000}"), "\"\\u{10000}\"");
    assert_eq!(string_literal("a\u{100}b"), "\"a\\u{100}b\"");
}

#[test]
fn literal_borders_of_the_plain_range() {
    assert_eq!(string_literal(" "), "\" \"");
    assert_eq!(string_literal("~"), "\"~\"");
    assert_eq!(string_literal("!#[]"), "\"!#[]\"");
}

#[test]
fn literal_reads_back_as_the_text() {
    let samples = [
        "",
        "x",
        "foo-bar",
        "a\"b\\c",
        "\\u{41}",
        "{}",
        "line\nbreak\r\n\ttab",
        "nul\0byte",
        "é日本語 \u{202e}rtl\u{10ffff}",
        "'single' \"double\"",
        "\\\\\"\"",
    ];
    for text in samples {
        let literal = string_literal(text);
        assert!(literal.is_ascii());
        let parsed: syn::LitStr = syn::parse_str(&literal).unwrap();
        assert_eq!(parsed.value(), text);
    }
    for code in 0u32..0x3000 {
        if let Some(c) = char::from_u32(code) {
            let text = format!("a{c}b");
            let parsed: syn::LitStr = syn::parse_str(&string_literal(&text)).unwrap();
            assert_eq!(parsed.value(), text);
        }
    }
}

#[test]
fn direct_lookup_text() {
    assert_eq!(request_text(&plan_of("x", "z", None, false)), "row.try_get(\"z\")");
    assert_eq!(value_text(&plan_of("x", "z", None, false)), "row.try_get(\"z\")?");
}

#[test]
fn custom_decoder_text_makes_no_lookup() {
    let plan = plan_of("x", "x", Some("split_x"), false);
    assert_eq!(request_text(&plan), "split_x(\"x\", row)");
    assert_eq!(value_text(&plan), "split_x(\"x\", row)?");
    assert!(!value_text(&plan).contains("try_get"));
    let plan = plan_of("x", "the col", Some("crate::codec::split"), false);
    assert_eq!(request_text(&plan), "crate::codec::split(\"the col\", row)");
}

#[test]
fn default_wraps_either_request() {
    let direct = plan_of("x", "z", None, true);
    assert_eq!(value_text(&direct), format!("match row.try_get(\"z\"){DEFAULT_ARM}"));
    let custom = plan_of("x", "z", Some("split_x"), true);
    assert_eq!(value_text(&custom), format!("match split_x(\"z\", row){DEFAULT_ARM}"));
}

#[test]
fn record_text_lists_fields_in_order() {
    assert_eq!(record_text(&vec![]), "Self { }");
    assert_eq!(
        record_text(&vec![plan_of("x", "z", None, false), plan_of("y", "y", Some("f"), false)]),
        "Self { x: row.try_get(\"z\")?, y: f(\"y\", row)?, }"
    );
    assert_eq!(
        record_text(&vec![plan_of("b", "b", None, false), plan_of("a", "a", None, false)]),
        "Self { b: row.try_get(\"b\")?, a: row.try_get(\"a\")?, }"
    );
}

#[test]
fn routine_text_of_plain_record() {
    let plan = ExtractionPlan {
        record_name: "Row".to_string(),
        generics: no_generics(),
        engine: "sqlx::Sqlite".to_string(),
        fields: vec![plan_of("x", "x", None, false), plan_of("y", "y", None, false)],
    };
    assert_eq!(
        routine_text(&plan),
        "impl  ::sqlx::FromRow<'_, <sqlx::Sqlite as ::sqlx::Database>::Row> for Row   \
         { fn from_row(row: &<sqlx::Sqlite as ::sqlx::Database>::Row) -> ::sqlx::Result<Self> \
         { use ::sqlx::Row; Ok(Self { x: row.try_get(\"x\")?, y: row.try_get(\"y\")?, }) } }"
    );
}

#[test]
fn routine_text_keeps_generics_and_bounds() {
    let plan = ExtractionPlan {
        record_name: "Wrapper".to_string(),
        generics: Generics {
            impl_params: "< 'a , T : Clone >".to_string(),
            type_args: "< 'a , T >".to_string(),
            where_clause: "where T : Default".to_string(),
        },
        engine: "sqlx::Postgres".to_string(),
        fields: vec![plan_of("inner", "inner", None, true)],
    };
    let text = routine_text(&plan);
    assert_eq!(
        text,
        format!(
            "impl < 'a , T : Clone > ::sqlx::FromRow<'_, <sqlx::Postgres as ::sqlx::Database>::Row> \
             for Wrapper < 'a , T > where T : Default \
             {{ fn from_row(row: &<sqlx::Postgres as ::sqlx::Database>::Row) -> ::sqlx::Result<Self> \
             {{ use ::sqlx::Row; Ok(Self {{ inner: match row.try_get(\"inner\"){DEFAULT_ARM}, }}) }} }}"
        )
    );
    let parsed: syn::ItemImpl = syn::parse_str(&text).unwrap();
    assert_eq!(parsed.generics.params.len(), 2);
    assert!(parsed.generics.where_clause.is_some());
}

#[test]
fn routine_text_is_one_impl_with_one_method() {
    let plan = ExtractionPlan {
        record_name: "Row".to_string(),
        generics: no_generics(),
        engine: "sqlx::Sqlite".to_string(),
        fields: vec![
            plan_of("x", "z\"; panic!()", Some("split_x"), true),
            plan_of("r#type", "type", None, false),
            plan_of("y", "\\", None, true),
        ],
    };
    let parsed: syn::ItemImpl = syn::parse_str(&routine_text(&plan)).unwrap();
    assert_eq!(parsed.items.len(), 1);
    let method = match &parsed.items[0] {
        syn::ImplItem::Fn(method) => method,
        _ => panic!("not a method"),
    };
    assert_eq!(method.sig.ident.to_string(), "from_row");
    let built = match method.block.stmts.last() {
        Some(syn::Stmt::Expr(syn::Expr::Call(call), None)) => match call.args.first() {
            Some(syn::Expr::Struct(built)) => built.clone(),
            _ => panic!("not a struct expression"),
        },
        _ => panic!("not a call"),
    };
    let names: Vec<String> = built
        .fields
        .iter()
        .map(|f| match &f.member {
            syn::Member::Named(name) => name.to_string(),
            syn::Member::Unnamed(_) => panic!("positional"),
        })
        .collect();
    assert_eq!(names, ["x", "r#type", "y"]);
}

#[test]
fn expand_derive_writes_the_routine() {
    let raw = RawRecord {
        record_name: "Row".to_string(),
        generics: no_generics(),
        shape: Shape::Named,
        annotations: vec![pair("db", "sqlx::Sqlite"), pair("rename_all", "PascalCase")],
        fields: vec![
            RawField { name: "foo_bar".to_string(), annotations: vec![] },
            RawField {
                name: "x".to_string(),
                annotations: vec![pair("rename", "z"), flag("default")],
            },
            RawField { name: "pair".to_string(), annotations: vec![pair("decode", "split_x")] },
        ],
    };
    assert_eq!(
        expand_derive(&raw).unwrap(),
        format!(
            "impl  ::sqlx::FromRow<'_, <sqlx::Sqlite as ::sqlx::Database>::Row> for Row   \
             {{ fn from_row(row: &<sqlx::Sqlite as ::sqlx::Database>::Row) -> ::sqlx::Result<Self> \
             {{ use ::sqlx::Row; Ok(Self {{ foo_bar: row.try_get(\"FooBar\")?, \
             x: match row.try_get(\"z\"){DEFAULT_ARM}, pair: split_x(\"Pair\", row)?, }}) }} }}"
        )
    );
}

#[test]
fn expand_derive_reports_the_fault() {
    let mut raw = RawRecord {
        record_name: "Row".to_string(),
        generics: no_generics(),
        shape: Shape::Named,
        annotations: vec![],
        fields: vec![
            RawField { name: "x".to_string(), annotations: vec![] },
            RawField { name: "y".to_string(), annotations: vec![] },
        ],
    };
    assert_eq!(expand_derive(&raw), Err(GenerationError::MissingEngine));
    raw.annotations = vec![pair("db", "sqlx::Sqlite")];
    raw.shape = Shape::Tuple;
    assert_eq!(expand_derive(&raw), Err(GenerationError::NotNamedFields));
    raw.shape = Shape::Named;
    raw.annotations.push(pair("rename_all", "Title Case"));
    assert_eq!(
        expand_derive(&raw),
        Err(GenerationError::UnknownPolicy { token: "Title Case".to_string() })
    );
}
