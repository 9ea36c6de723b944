use sqlx_with::policy::NamingPolicy;
use sqlx_with::text::same_text;

const ALL: [NamingPolicy; 8] = [
    NamingPolicy::Identity,
    NamingPolicy::Lower,
    NamingPolicy::Upper,
    NamingPolicy::Snake,
    NamingPolicy::ScreamingSnake,
    NamingPolicy::LowerCamel,
    NamingPolicy::UpperCamel,
    NamingPolicy::Kebab,
];

#[test]
fn tokens_select_their_policies() {
    assert_eq!(NamingPolicy::from_token("snake_case"), Some(NamingPolicy::Snake));
    assert_eq!(NamingPolicy::from_token("lowercase"), Some(NamingPolicy::Lower));
    assert_eq!(NamingPolicy::from_token("UPPERCASE"), Some(NamingPolicy::Upper));
    assert_eq!(NamingPolicy::from_token("camelCase"), Some(NamingPolicy::LowerCamel));
    assert_eq!(NamingPolicy::from_token("PascalCase"), Some(NamingPolicy::UpperCamel));
    assert_eq!(
        NamingPolicy::from_token("SCREAMING_SNAKE_CASE"),
        Some(NamingPolicy::ScreamingSnake)
    );
    assert_eq!(NamingPolicy::from_token("kebab-case"), Some(NamingPolicy::Kebab));
}

#[test]
fn other_tokens_select_nothing() {
    for token in [
        "",
        "snake",
        "Snake_Case",
        "snake_case ",
        "SNAKE_CASE",
        "camelcase",
        "pascalCase",
        "kebab_case",
        "SCREAMING-KEBAB-CASE",
        "identity",
        "none",
    ] {
        assert_eq!(NamingPolicy::from_token(token), None, "{token}");
    }
}

#[test]
fn token_round_trip() {
    for policy in ALL {
        match policy.token() {
            Some(token) => assert_eq!(NamingPolicy::from_token(token), Some(policy)),
            None => assert_eq!(policy, NamingPolicy::Identity),
        }
    }
}

#[test]
fn token_texts() {
    assert_eq!(NamingPolicy::Identity.token(), None);
    assert_eq!(NamingPolicy::Lower.token(), Some("lowercase"));
    assert_eq!(NamingPolicy::Upper.token(), Some("UPPERCASE"));
    assert_eq!(NamingPolicy::Snake.token(), Some("snake_case"));
    assert_eq!(NamingPolicy::ScreamingSnake.token(), Some("SCREAMING_SNAKE_CASE"));
    assert_eq!(NamingPolicy::LowerCamel.token(), Some("camelCase"));
    assert_eq!(NamingPolicy::UpperCamel.token(), Some("PascalCase"));
    assert_eq!(NamingPolicy::Kebab.token(), Some("kebab-case"));
}

#[test]
fn conversion_table_lower_camel_input() {
    let input = "fooBar";
    assert_eq!(NamingPolicy::Identity.convert(input), "fooBar");
    assert_eq!(NamingPolicy::Snake.convert(input), "foo_bar");
    assert_eq!(NamingPolicy::Lower.convert(input), "foobar");
    assert_eq!(NamingPolicy::Upper.convert(input), "FOOBAR");
    assert_eq!(NamingPolicy::LowerCamel.convert(input), "fooBar");
    assert_eq!(NamingPolicy::UpperCamel.convert(input), "FooBar");
    assert_eq!(NamingPolicy::ScreamingSnake.convert(input), "FOO_BAR");
    assert_eq!(NamingPolicy::Kebab.convert(input), "foo-bar");
}

#[test]
fn conversion_table_upper_camel_input() {
    let input = "FooBar";
    assert_eq!(NamingPolicy::Identity.convert(input), "FooBar");
    assert_eq!(NamingPolicy::Snake.convert(input), "foo_bar");
    assert_eq!(NamingPolicy::Lower.convert(input), "foobar");
    assert_eq!(NamingPolicy::Upper.convert(input), "FOOBAR");
    assert_eq!(NamingPolicy::LowerCamel.convert(input), "fooBar");
    assert_eq!(NamingPolicy::UpperCamel.convert(input), "FooBar");
    assert_eq!(NamingPolicy::ScreamingSnake.convert(input), "FOO_BAR");
    assert_eq!(NamingPolicy::Kebab.convert(input), "foo-bar");
}

#[test]
fn conversion_of_snake_input() {
    let input = "foo_bar";
    assert_eq!(NamingPolicy::Snake.convert(input), "foo_bar");
    assert_eq!(NamingPolicy::Lower.convert(input), "foo_bar");
    assert_eq!(NamingPolicy::Upper.convert(input), "FOO_BAR");
    assert_eq!(NamingPolicy::LowerCamel.convert(input), "fooBar");
    assert_eq!(NamingPolicy::UpperCamel.convert(input), "FooBar");
    assert_eq!(NamingPolicy::ScreamingSnake.convert(input), "FOO_BAR");
    assert_eq!(NamingPolicy::Kebab.convert(input), "foo-bar");
}

#[test]
fn acronyms_and_digits_follow_word_boundaries() {
    assert_eq!(NamingPolicy::Snake.convert("XMLHttpRequest"), "xml_http_request");
    assert_eq!(NamingPolicy::UpperCamel.convert("XMLHttpRequest"), "XmlHttpRequest");
    assert_eq!(NamingPolicy::LowerCamel.convert("XMLHttpRequest"), "xmlHttpRequest");
    assert_eq!(NamingPolicy::Kebab.convert("XMLHttpRequest"), "xml-http-request");
    assert_eq!(NamingPolicy::ScreamingSnake.convert("XMLHttpRequest"), "XML_HTTP_REQUEST");
    assert_eq!(NamingPolicy::Snake.convert("FIELD_NAME11"), "field_name11");
    assert_eq!(NamingPolicy::Snake.convert("abc123DEF456"), "abc123_def456");
    assert_eq!(NamingPolicy::Snake.convert("99BOTTLES"), "99bottles");
    assert_eq!(NamingPolicy::Lower.convert("Field_Name11"), "field_name11");
    assert_eq!(NamingPolicy::Upper.convert("field-name11"), "FIELD-NAME11");
}

#[test]
fn separators_fold_and_edges_drop() {
    assert_eq!(NamingPolicy::Snake.convert("__foo__bar__"), "foo_bar");
    assert_eq!(NamingPolicy::Kebab.convert("_foo_bar"), "foo-bar");
    assert_eq!(NamingPolicy::UpperCamel.convert("foo__bar"), "FooBar");
    assert_eq!(NamingPolicy::Snake.convert(""), "");
    assert_eq!(NamingPolicy::Identity.convert(""), "");
}

#[test]
fn raw_identifier_is_converted_as_written() {
    assert_eq!(NamingPolicy::Identity.convert("r#type"), "r#type");
    assert_eq!(NamingPolicy::Snake.convert("r#type"), "r_type");
    assert_eq!(NamingPolicy::Upper.convert("r#type"), "R#TYPE");
}

#[test]
fn converted_names_convert_to_themselves() {
    assert_eq!(NamingPolicy::Snake.convert("foo_bar"), "foo_bar");
    assert_eq!(NamingPolicy::Lower.convert("foobar"), "foobar");
    assert_eq!(NamingPolicy::Upper.convert("FOOBAR"), "FOOBAR");
    assert_eq!(NamingPolicy::LowerCamel.convert("fooBar"), "fooBar");
    assert_eq!(NamingPolicy::UpperCamel.convert("FooBar"), "FooBar");
    assert_eq!(NamingPolicy::ScreamingSnake.convert("FOO_BAR"), "FOO_BAR");
    assert_eq!(NamingPolicy::Kebab.convert("foo-bar"), "foo-bar");
    assert_eq!(NamingPolicy::Identity.convert("Foo_bar"), "Foo_bar");
}

#[test]
fn converting_twice_equals_converting_once_on_common_names() {
    for policy in ALL {
        for name in ["fooBar", "FooBar", "foo_bar", "id", "created_at", "userId", "HTTPStatus"] {
            let once = policy.convert(name);
            let twice = policy.convert(&once);
            assert_eq!(twice, once, "{policy:?} on {name}");
        }
    }
}

#[test]
fn single_letter_words_break_idempotence_of_camel_cases() {
    let once = NamingPolicy::UpperCamel.convert("a_b_c");
    assert_eq!(once, "ABC");
    assert_eq!(NamingPolicy::UpperCamel.convert(&once), "Abc");
    let once = NamingPolicy::LowerCamel.convert("a_b_c");
    assert_eq!(once, "aBC");
    assert_eq!(NamingPolicy::LowerCamel.convert(&once), "aBc");
}

#[test]
fn same_text_compares_contents() {
    assert!(same_text("db", "db"));
    assert!(same_text("", ""));
    assert!(!same_text("db", "DB"));
    assert!(!same_text("db", "db "));
    assert!(!same_text("rename", "rename_all"));
}
