use sqlx_with::plan::{assemble, plan_field, ExtractionPlan, FieldPlan};
use sqlx_with::policy::NamingPolicy;
use sqlx_with::record::{FieldDescription, Generics, RecordDescription};
use sqlx_with::resolve::column_name;

const POLICIES: [NamingPolicy; 8] = [
    NamingPolicy::Identity,
    NamingPolicy::Lower,
    NamingPolicy::Upper,
    NamingPolicy::Snake,
    NamingPolicy::ScreamingSnake,
    NamingPolicy::LowerCamel,
    NamingPolicy::UpperCamel,
    NamingPolicy::Kebab,
];

fn field(name: &str, rename: Option<&str>) -> FieldDescription {
    FieldDescription {
        name: name.to_string(),
        rename: rename.map(str::to_string),
        use_default: false,
        decoder: None,
    }
}

fn no_generics() -> Generics {
    Generics { impl_params: String::new(), type_args: String::new(), where_clause: String::new() }
}

#[test]
fn unconfigured_field_keeps_its_identifier() {
    for name in ["x", "y", "foo_bar", "FooBar", "fooBar", "r#type", "日本語", ""] {
        assert_eq!(column_name(&field(name, None), None), name);
        assert_eq!(column_name(&field(name, None), Some(NamingPolicy::Identity)), name);
    }
}

#[test]
fn rename_is_used_verbatim() {
    for column in ["z", "Foo Bar", "foo-bar", "", "UPPER_lower", "\"quoted\""] {
        assert_eq!(column_name(&field("x", Some(column)), None), column);
    }
}

#[test]
fn rename_wins_over_every_policy() {
    for policy in POLICIES {
        assert_eq!(column_name(&field("foo_bar", Some("hi")), Some(policy)), "hi");
        assert_eq!(column_name(&field("foo_bar", Some("Hi_There")), Some(policy)), "Hi_There");
    }
    assert_ne!(column_name(&field("foo_bar", Some("hi")), Some(NamingPolicy::Kebab)), "foo-bar");
}

#[test]
fn policy_applies_without_rename() {
    let foo_bar = field("foo_bar", None);
    assert_eq!(column_name(&foo_bar, Some(NamingPolicy::Kebab)), "foo-bar");
    assert_eq!(column_name(&foo_bar, Some(NamingPolicy::UpperCamel)), "FooBar");
    assert_eq!(column_name(&foo_bar, Some(NamingPolicy::LowerCamel)), "fooBar");
    assert_eq!(column_name(&foo_bar, Some(NamingPolicy::ScreamingSnake)), "FOO_BAR");
    assert_eq!(column_name(&foo_bar, Some(NamingPolicy::Upper)), "FOO_BAR");
    let upper = field("FooBar", None);
    assert_eq!(column_name(&upper, Some(NamingPolicy::Snake)), "foo_bar");
    assert_eq!(column_name(&upper, Some(NamingPolicy::Lower)), "foobar");
}

#[test]
fn field_plan_carries_strategy_and_column() {
    let described = FieldDescription {
        name: "created_at".to_string(),
        rename: None,
        use_default: true,
        decoder: Some("codec::timestamp".to_string()),
    };
    assert_eq!(
        plan_field(&described, Some(NamingPolicy::LowerCamel)),
        FieldPlan {
            field: "created_at".to_string(),
            column: "createdAt".to_string(),
            decoder: Some("codec::timestamp".to_string()),
            use_default: true,
        }
    );
    assert_eq!(
        plan_field(&field("x", Some("z")), Some(NamingPolicy::Upper)),
        FieldPlan {
            field: "x".to_string(),
            column: "z".to_string(),
            decoder: None,
            use_default: false,
        }
    );
}

#[test]
fn plan_has_one_entry_per_field_in_declaration_order() {
    let record = RecordDescription {
        record_name: "Row".to_string(),
        generics: Generics {
            impl_params: "< 'a >".to_string(),
            type_args: "< 'a >".to_string(),
            where_clause: String::new(),
        },
        engine: "sqlx::Sqlite".to_string(),
        policy: Some(NamingPolicy::ScreamingSnake),
        fields: vec![field("zeta_one", None), field("alpha", Some("a")), field("midWay", None)],
    };
    let plan = assemble(&record);
    assert_eq!(
        plan,
        ExtractionPlan {
            record_name: "Row".to_string(),
            generics: record.generics.clone(),
            engine: "sqlx::Sqlite".to_string(),
            fields: vec![
                FieldPlan {
                    field: "zeta_one".to_string(),
                    column: "ZETA_ONE".to_string(),
                    decoder: None,
                    use_default: false,
                },
                FieldPlan {
                    field: "alpha".to_string(),
                    column: "a".to_string(),
                    decoder: None,
                    use_default: false,
                },
                FieldPlan {
                    field: "midWay".to_string(),
                    column: "MID_WAY".to_string(),
                    decoder: None,
                    use_default: false,
                },
            ],
        }
    );
}

#[test]
fn two_fields_may_share_a_column() {
    let record = RecordDescription {
        record_name: "Row".to_string(),
        generics: no_generics(),
        engine: "sqlx::Sqlite".to_string(),
        policy: Some(NamingPolicy::Lower),
        fields: vec![field("Id", None), field("ID", None), field("other", Some("id"))],
    };
    let plan = assemble(&record);
    let columns: Vec<&str> = plan.fields.iter().map(|f| f.column.as_str()).collect();
    assert_eq!(columns, ["id", "id", "id"]);
}

#[test]
fn empty_record_has_empty_plan() {
    let record = RecordDescription {
        record_name: "Empty".to_string(),
        generics: no_generics(),
        engine: "sqlx::Sqlite".to_string(),
        policy: None,
        fields: vec![],
    };
    assert!(assemble(&record).fields.is_empty());
}
