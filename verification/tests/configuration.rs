use cross_check_plugin::attr::{
    find_cross_check_attr, parse_action, parse_action_spec, parse_attr_config,
    parse_field_directive,
};
use cross_check_plugin::config::{
    extend_texts, FunctionCheckConfig, InheritedCheckConfig, ItemCheckConfig, ScopeCheckConfig,
    Settings, StructCheckConfig,
};
use cross_check_plugin::directive::{
    extend_table, lookup, CheckDirective, FieldDirective, FieldId,
};
use cross_check_plugin::error::CheckError;
use cross_check_plugin::external::{
    find_named, merge_file_defaults, ExternalConfig, FileConfig, ItemEntry,
};
use cross_check_plugin::scope::ScopeConfig;
use cross_check_plugin::text::{clone_opt, parse_decimal, str_is};
use cross_check_plugin::tree::{
    Attribute, Block, FieldMarker, FnDecl, ItemKind, MetaArg, MetaValue, VariantData,
};

fn s(x: &str) -> String {
    x.to_string()
}

fn word(name: &str) -> MetaArg {
    MetaArg { name: s(name), value: MetaValue::Nothing }
}

fn text(name: &str, value: &str) -> MetaArg {
    MetaArg { name: s(name), value: MetaValue::Str(s(value)) }
}

fn number(name: &str, value: u64) -> MetaArg {
    MetaArg { name: s(name), value: MetaValue::Int(value) }
}

fn flag(name: &str, value: bool) -> MetaArg {
    MetaArg { name: s(name), value: MetaValue::Bool(value) }
}

fn list(name: &str, items: Vec<MetaArg>) -> MetaArg {
    MetaArg { name: s(name), value: MetaValue::List(items) }
}

fn directive(items: Vec<MetaArg>) -> MetaArg {
    list("cross_check", items)
}

fn filed(field: FieldId, directive: CheckDirective) -> FieldDirective {
    FieldDirective { field, directive }
}

fn function_kind() -> ItemKind {
    ItemKind::Fn(FnDecl { inputs: vec![], output: None }, Block { stmts: vec![] })
}

fn struct_kind() -> ItemKind {
    ItemKind::Struct(VariantData { fields: vec![] })
}

fn entry(name: Option<&str>, settings: Settings) -> ItemEntry {
    ItemEntry { name: name.map(s), settings, nested: vec![] }
}

fn enabled(value: bool) -> Settings {
    let mut settings = Settings::new();
    settings.enabled = Some(value);
    settings
}

fn with_ahasher(value: &str) -> Settings {
    let mut settings = Settings::new();
    settings.ahasher = Some(s(value));
    settings
}

#[test]
fn default_configuration() {
    let c = ScopeCheckConfig::new();
    assert_eq!(
        c.inherited,
        InheritedCheckConfig {
            enabled: true,
            entry: CheckDirective::Default,
            exit: CheckDirective::Default,
            all_args: CheckDirective::Default,
            ret: CheckDirective::Default,
            ahasher: None,
            shasher: None,
        }
    );
    assert_eq!(c.item, ItemCheckConfig::Top);
    assert_eq!(InheritedCheckConfig::new(), c.inherited);
}

#[test]
fn bare_directive_gives_no_settings() {
    assert_eq!(parse_attr_config(&word("cross_check")), Ok(Settings::new()));
    assert_eq!(parse_attr_config(&directive(vec![])), Ok(Settings::new()));
    let nothing = Settings::new();
    assert_eq!(nothing.enabled, None);
    assert_eq!(nothing.entry, None);
    assert_eq!(nothing.args, vec![]);
    assert_eq!(nothing.custom_hash, None);
}

#[test]
fn directive_with_every_parameter() {
    let m = directive(vec![
        flag("enabled", false),
        list("entry", vec![word("disabled")]),
        word("exit"),
        list("ret", vec![text("as_type", "u32")]),
        list("args", vec![number("fixed", 4), list("x", vec![text("custom", "hx(x)")]), list("y", vec![])]),
        list("fields", vec![list("0", vec![word("disabled")]), list("len", vec![number("fixed", 1)])]),
        text("ahasher", "A"),
        text("shasher", "S"),
        text("field_hasher", "F"),
        text("custom_hash", "C"),
        list("entry_extra", vec![text("custom", "a"), text("custom", "b")]),
        list("exit_extra", vec![text("custom", "c")]),
    ]);
    // `y()` is an empty list: no single action
    assert_eq!(parse_attr_config(&m), Err(CheckError::MalformedDirective));
    let m = directive(vec![
        flag("enabled", false),
        list("entry", vec![word("disabled")]),
        word("exit"),
        list("ret", vec![text("as_type", "u32")]),
        list("args", vec![number("fixed", 4), list("x", vec![text("custom", "hx(x)")])]),
        list("fields", vec![list("0", vec![word("disabled")]), list("len", vec![number("fixed", 1)])]),
        text("ahasher", "A"),
        text("shasher", "S"),
        text("field_hasher", "F"),
        text("custom_hash", "C"),
        list("entry_extra", vec![text("custom", "a"), text("custom", "b")]),
        list("exit_extra", vec![text("custom", "c")]),
    ]);
    assert_eq!(
        parse_attr_config(&m),
        Ok(Settings {
            enabled: Some(false),
            entry: Some(CheckDirective::Disabled),
            exit: Some(CheckDirective::Default),
            all_args: Some(CheckDirective::Fixed(4)),
            ret: Some(CheckDirective::AsType(s("u32"))),
            ahasher: Some(s("A")),
            shasher: Some(s("S")),
            args: vec![filed(FieldId::Name(s("x")), CheckDirective::Custom(s("hx(x)")))],
            entry_extra: vec![s("a"), s("b")],
            exit_extra: vec![s("c")],
            field_hasher: Some(s("F")),
            custom_hash: Some(s("C")),
            fields: vec![
                filed(FieldId::Index(0), CheckDirective::Disabled),
                filed(FieldId::Name(s("len")), CheckDirective::Fixed(1)),
            ],
        })
    );
}

#[test]
fn later_parameter_replaces_earlier() {
    let m = directive(vec![flag("enabled", false), text("ahasher", "A"), flag("enabled", true), text("ahasher", "B")]);
    let settings = parse_attr_config(&m).unwrap();
    assert_eq!(settings.enabled, Some(true));
    assert_eq!(settings.ahasher, Some(s("B")));
}

#[test]
fn malformed_directives() {
    let bad = |items: Vec<MetaArg>| {
        assert_eq!(parse_attr_config(&directive(items)), Err(CheckError::MalformedDirective));
    };
    bad(vec![word("unknown")]);
    bad(vec![word("enabled")]);
    bad(vec![text("enabled", "yes")]);
    bad(vec![text("entry", "disabled")]);
    bad(vec![list("entry", vec![])]);
    bad(vec![list("entry", vec![word("default"), word("disabled")])]);
    bad(vec![list("entry", vec![word("fixed")])]);
    bad(vec![list("entry", vec![text("fixed", "1")])]);
    bad(vec![list("ret", vec![number("custom", 1)])]);
    bad(vec![list("exit", vec![word("never")])]);
    bad(vec![word("args")]);
    bad(vec![list("args", vec![word("never")])]);
    bad(vec![list("args", vec![list("x", vec![word("never")])])]);
    bad(vec![list("fields", vec![word("disabled")])]);
    bad(vec![word("fields")]);
    bad(vec![number("ahasher", 1)]);
    bad(vec![word("shasher")]);
    bad(vec![word("field_hasher")]);
    bad(vec![list("custom_hash", vec![])]);
    bad(vec![list("entry_extra", vec![text("expr", "a")])]);
    bad(vec![list("exit_extra", vec![word("custom")])]);
    bad(vec![text("entry_extra", "a")]);
    // a good parameter before a bad one does not help
    bad(vec![flag("enabled", true), word("unknown")]);
    assert_eq!(parse_attr_config(&text("cross_check", "yes")), Err(CheckError::MalformedDirective));
    assert_eq!(parse_attr_config(&number("cross_check", 1)), Err(CheckError::MalformedDirective));
}

#[test]
fn actions() {
    assert_eq!(parse_action(&word("default")), Ok(CheckDirective::Default));
    assert_eq!(parse_action(&word("disabled")), Ok(CheckDirective::Disabled));
    assert_eq!(parse_action(&number("fixed", 0x1234)), Ok(CheckDirective::Fixed(0x1234)));
    assert_eq!(parse_action(&text("as_type", "u8")), Ok(CheckDirective::AsType(s("u8"))));
    assert_eq!(parse_action(&text("custom", "f(x)")), Ok(CheckDirective::Custom(s("f(x)"))));
    assert_eq!(parse_action(&text("named", "djb2")), Ok(CheckDirective::Named(s("djb2"))));
    assert_eq!(parse_action(&word("fixed")), Err(CheckError::MalformedDirective));
    assert_eq!(parse_action(&number("default", 1)), Err(CheckError::MalformedDirective));
    assert_eq!(parse_action(&text("disabled", "")), Err(CheckError::MalformedDirective));
    assert_eq!(parse_action(&flag("default", true)), Err(CheckError::MalformedDirective));
    assert_eq!(parse_action(&list("default", vec![])), Err(CheckError::MalformedDirective));
    assert_eq!(parse_action_spec(&MetaValue::Nothing), Ok(CheckDirective::Default));
    assert_eq!(
        parse_action_spec(&MetaValue::List(vec![number("fixed", 2)])),
        Ok(CheckDirective::Fixed(2))
    );
    assert_eq!(parse_action_spec(&MetaValue::Int(2)), Err(CheckError::MalformedDirective));
}

#[test]
fn field_directives() {
    assert_eq!(parse_field_directive(&word("cross_check")), Ok(None));
    assert_eq!(parse_field_directive(&directive(vec![])), Ok(None));
    assert_eq!(
        parse_field_directive(&directive(vec![word("disabled")])),
        Ok(Some(CheckDirective::Disabled))
    );
    assert_eq!(
        parse_field_directive(&directive(vec![number("fixed", 9)])),
        Ok(Some(CheckDirective::Fixed(9)))
    );
    assert_eq!(
        parse_field_directive(&directive(vec![word("default"), word("default")])),
        Err(CheckError::MalformedDirective)
    );
    assert_eq!(
        parse_field_directive(&directive(vec![word("exclude")])),
        Err(CheckError::MalformedDirective)
    );
    assert_eq!(
        parse_field_directive(&text("cross_check", "disabled")),
        Err(CheckError::MalformedDirective)
    );
}

#[test]
fn finds_the_first_directive() {
    let attrs = vec![
        Attribute::Source(word("inline")),
        Attribute::DeriveHash,
        Attribute::FieldHash(FieldMarker::Exclude),
        Attribute::Source(directive(vec![word("disabled")])),
        Attribute::Source(directive(vec![word("default")])),
    ];
    assert_eq!(find_cross_check_attr(&attrs), Some(&directive(vec![word("disabled")])));
    let attrs = vec![Attribute::Source(word("cross_check_hash")), Attribute::Source(word("cross"))];
    assert_eq!(find_cross_check_attr(&attrs), None);
    assert_eq!(find_cross_check_attr(&vec![]), None);
}

#[test]
fn field_identity_from_text() {
    assert_eq!(FieldId::from_str(&s("0")), FieldId::Index(0));
    assert_eq!(FieldId::from_str(&s("12")), FieldId::Index(12));
    assert_eq!(FieldId::from_str(&s("007")), FieldId::Index(7));
    assert_eq!(FieldId::from_str(&s("x")), FieldId::Name(s("x")));
    assert_eq!(FieldId::from_str(&s("x1")), FieldId::Name(s("x1")));
    assert_eq!(FieldId::from_str(&s("1x")), FieldId::Name(s("1x")));
    assert_eq!(FieldId::from_str(&s("")), FieldId::Name(s("")));
    assert_eq!(FieldId::from_str(&s("-1")), FieldId::Name(s("-1")));
    assert_eq!(FieldId::from_str(&s("+1")), FieldId::Name(s("+1")));
    let huge = "340282366920938463463374607431768211456";
    assert_eq!(FieldId::from_str(&s(huge)), FieldId::Name(s(huge)));
    assert!(FieldId::Index(3).same(&FieldId::Index(3)));
    assert!(!FieldId::Index(3).same(&FieldId::Index(4)));
    assert!(FieldId::Name(s("a")).same(&FieldId::Name(s("a"))));
    assert!(!FieldId::Name(s("a")).same(&FieldId::Name(s("b"))));
    assert!(!FieldId::Name(s("3")).same(&FieldId::Index(3)));
}

#[test]
fn decimal_numbers() {
    assert_eq!(parse_decimal(&s("0")), Some(0));
    assert_eq!(parse_decimal(&s("65535")), Some(65535));
    assert_eq!(parse_decimal(&s("18446744073709551615")), usize::try_from(18446744073709551615u64).ok());
    assert_eq!(parse_decimal(&s("18446744073709551616")), None);
    assert_eq!(parse_decimal(&s("184467440737095516150")), None);
    assert_eq!(parse_decimal(&s("")), None);
    assert_eq!(parse_decimal(&s("1_000")), None);
    assert_eq!(parse_decimal(&s("१२")), None);
    assert_eq!(parse_decimal(&s(" 1")), None);
    assert!(str_is(&s("entry"), "entry"));
    assert!(!str_is(&s("entry"), "exit"));
    assert!(!str_is(&s("entry"), "entr"));
    assert_eq!(clone_opt(&Some(s("a"))), Some(s("a")));
    assert_eq!(clone_opt(&None), None);
}

#[test]
fn table_lookup_takes_the_last_entry() {
    let table = vec![
        filed(FieldId::Name(s("a")), CheckDirective::Fixed(1)),
        filed(FieldId::Index(0), CheckDirective::Fixed(2)),
        filed(FieldId::Name(s("a")), CheckDirective::Fixed(3)),
    ];
    assert_eq!(lookup(&table, &FieldId::Name(s("a"))), Some(&CheckDirective::Fixed(3)));
    assert_eq!(lookup(&table, &FieldId::Index(0)), Some(&CheckDirective::Fixed(2)));
    assert_eq!(lookup(&table, &FieldId::Index(1)), None);
    assert_eq!(lookup(&table, &FieldId::Name(s("0"))), None);
    assert_eq!(lookup(&vec![], &FieldId::Index(0)), None);
    let mut other = vec![filed(FieldId::Index(0), CheckDirective::Fixed(2))];
    extend_table(
        &mut other,
        &vec![
            filed(FieldId::Index(1), CheckDirective::Default),
            filed(FieldId::Index(0), CheckDirective::Disabled),
        ],
    );
    assert_eq!(
        other,
        vec![
            filed(FieldId::Index(0), CheckDirective::Fixed(2)),
            filed(FieldId::Index(1), CheckDirective::Default),
            filed(FieldId::Index(0), CheckDirective::Disabled),
        ]
    );
    assert_eq!(lookup(&other, &FieldId::Index(0)), Some(&CheckDirective::Disabled));
    let mut names = vec![s("a")];
    extend_texts(&mut names, &vec![s("b"), s("c")]);
    assert_eq!(names, vec![s("a"), s("b"), s("c")]);
}

#[test]
fn merged_replaces_what_is_given() {
    let mut base = InheritedCheckConfig::new();
    base.shasher = Some(s("S0"));
    base.exit = CheckDirective::Fixed(1);
    let mut settings = Settings::new();
    settings.enabled = Some(false);
    settings.entry = Some(CheckDirective::Disabled);
    settings.ahasher = Some(s("A1"));
    let merged = base.merged(&settings);
    assert_eq!(
        merged,
        InheritedCheckConfig {
            enabled: false,
            entry: CheckDirective::Disabled,
            exit: CheckDirective::Fixed(1),
            all_args: CheckDirective::Default,
            ret: CheckDirective::Default,
            ahasher: Some(s("A1")),
            shasher: Some(s("S0")),
        }
    );
    // the record that is shared stays as it was
    assert!(base.enabled);
    assert_eq!(base.merged(&Settings::new()), base);
    assert_eq!(base.clone(), base);
}

#[test]
fn merge_into_function_scope() {
    let mut config = ScopeCheckConfig::from_item(&function_kind(), InheritedCheckConfig::new());
    let mut first = Settings::new();
    first.args = vec![filed(FieldId::Name(s("x")), CheckDirective::Disabled)];
    first.entry_extra = vec![s("a")];
    first.custom_hash = Some(s("ignored on a function"));
    first.fields = vec![filed(FieldId::Index(0), CheckDirective::Disabled)];
    let mut second = Settings::new();
    second.args = vec![filed(FieldId::Name(s("x")), CheckDirective::Fixed(1))];
    second.entry_extra = vec![s("b")];
    second.exit_extra = vec![s("c")];
    second.ret = Some(CheckDirective::Disabled);
    config.merge(&first);
    config.merge(&second);
    assert_eq!(config.inherited.ret, CheckDirective::Disabled);
    assert_eq!(
        config.item,
        ItemCheckConfig::Function(FunctionCheckConfig {
            args: vec![
                filed(FieldId::Name(s("x")), CheckDirective::Disabled),
                filed(FieldId::Name(s("x")), CheckDirective::Fixed(1)),
            ],
            entry_extra: vec![s("a"), s("b")],
            exit_extra: vec![s("c")],
        })
    );
}

#[test]
fn merge_into_struct_and_other_scopes() {
    let mut config = ScopeCheckConfig::from_item(&struct_kind(), InheritedCheckConfig::new());
    let mut first = Settings::new();
    first.custom_hash = Some(s("h1"));
    first.field_hasher = Some(s("f1"));
    first.fields = vec![filed(FieldId::Index(0), CheckDirective::Disabled)];
    first.args = vec![filed(FieldId::Name(s("x")), CheckDirective::Disabled)];
    let mut second = Settings::new();
    second.custom_hash = Some(s("h2"));
    second.fields = vec![filed(FieldId::Name(s("a")), CheckDirective::Default)];
    config.merge(&first);
    config.merge(&second);
    assert_eq!(
        config.item,
        ItemCheckConfig::Struct(StructCheckConfig {
            custom_hash: Some(s("h2")),
            field_hasher: Some(s("f1")),
            fields: vec![
                filed(FieldId::Index(0), CheckDirective::Disabled),
                filed(FieldId::Name(s("a")), CheckDirective::Default),
            ],
        })
    );
    let mut other = ScopeCheckConfig::from_item(&ItemKind::Other(s("use a;")), InheritedCheckConfig::new());
    other.merge(&first);
    assert_eq!(other.item, ItemCheckConfig::Other);
    let mut top = ScopeCheckConfig::new();
    top.merge(&second);
    assert_eq!(top.item, ItemCheckConfig::Top);
    let inherited = top.inherit(&ItemKind::Enum(vec![]));
    assert_eq!(
        inherited.item,
        ItemCheckConfig::Struct(StructCheckConfig { custom_hash: None, field_hasher: None, fields: vec![] })
    );
    assert_eq!(top.inherit(&ItemKind::Union(VariantData { fields: vec![] })).item, inherited.item);
    assert_eq!(top.inherit(&ItemKind::Mod(cross_check_plugin::span::Span { file: 0, lo: 0, hi: 0, ctxt: 0 }, vec![])).item, ItemCheckConfig::Other);
}

#[test]
fn named_entries_last_wins() {
    let items = vec![
        entry(Some("f"), enabled(false)),
        entry(None, with_ahasher("D")),
        entry(Some("g"), enabled(true)),
        entry(Some("f"), with_ahasher("F2")),
    ];
    assert_eq!(find_named(&items, &s("f")), Some(&entry(Some("f"), with_ahasher("F2"))));
    assert_eq!(find_named(&items, &s("g")), Some(&entry(Some("g"), enabled(true))));
    assert_eq!(find_named(&items, &s("h")), None);
    assert_eq!(find_named(&items, &s("")), None);
    assert_eq!(find_named(&vec![], &s("f")), None);
}

#[test]
fn file_defaults_merge_in_order() {
    let mut d1 = enabled(false);
    d1.ahasher = Some(s("A1"));
    let mut d2 = Settings::new();
    d2.ahasher = Some(s("A2"));
    d2.ret = Some(CheckDirective::Disabled);
    let items = vec![entry(None, d1), entry(Some("f"), with_ahasher("not a default")), entry(None, d2)];
    let mut config = ScopeCheckConfig::new();
    merge_file_defaults(&mut config, &items);
    assert!(!config.inherited.enabled);
    assert_eq!(config.inherited.ahasher, Some(s("A2")));
    assert_eq!(config.inherited.ret, CheckDirective::Disabled);
    assert_eq!(config.inherited.entry, CheckDirective::Default);
    assert_eq!(config.item, ItemCheckConfig::Top);

    let external = ExternalConfig {
        files: vec![
            FileConfig { name: s("a.rs"), items: vec![] },
            FileConfig { name: s("b.rs"), items },
        ],
    };
    assert_eq!(external.file_defaults_config(&s("b.rs")), Some(config));
    assert_eq!(external.file_defaults_config(&s("a.rs")), Some(ScopeCheckConfig::new()));
    assert_eq!(external.file_defaults_config(&s("c.rs")), None);
}

#[test]
fn external_files_merge_by_name() {
    let mut external = ExternalConfig::new();
    assert_eq!(external.files, vec![]);
    assert_eq!(external.get_file_items(&s("a.rs")), None);
    external.add_file(FileConfig { name: s("a.rs"), items: vec![entry(Some("f"), enabled(false))] });
    external.add_file(FileConfig { name: s("b.rs"), items: vec![] });
    external.add_file(FileConfig { name: s("a.rs"), items: vec![entry(Some("g"), enabled(true))] });
    assert_eq!(external.files.len(), 2);
    assert_eq!(
        external.get_file_items(&s("a.rs")),
        Some(&vec![entry(Some("f"), enabled(false)), entry(Some("g"), enabled(true))])
    );
    assert_eq!(external.get_file_items(&s("b.rs")), Some(&vec![]));
    assert_eq!(external.get_file_items(&s("c.rs")), None);

    let other = ExternalConfig {
        files: vec![
            FileConfig { name: s("c.rs"), items: vec![entry(None, enabled(false))] },
            FileConfig { name: s("a.rs"), items: vec![entry(Some("f"), enabled(true))] },
        ],
    };
    let merged = external.merge(other);
    assert_eq!(
        merged,
        ExternalConfig {
            files: vec![
                FileConfig {
                    name: s("a.rs"),
                    items: vec![
                        entry(Some("f"), enabled(false)),
                        entry(Some("g"), enabled(true)),
                        entry(Some("f"), enabled(true)),
                    ],
                },
                FileConfig { name: s("b.rs"), items: vec![] },
                FileConfig { name: s("c.rs"), items: vec![entry(None, enabled(false))] },
            ],
        }
    );
    // the later file's entry for `f` is the one in force
    let items = merged.get_file_items(&s("a.rs")).unwrap();
    assert_eq!(find_named(items, &s("f")), Some(&entry(Some("f"), enabled(true))));
}

#[test]
fn scope_config_lookups() {
    let nested = ItemEntry {
        name: Some(s("Point")),
        settings: Settings::new(),
        nested: vec![entry(Some("get"), enabled(false))],
    };
    let external = ExternalConfig {
        files: vec![FileConfig { name: s("main.rs"), items: vec![entry(Some("f"), enabled(false)), nested] }],
    };
    let scope = ScopeConfig::new(&external, s("main.rs"), ScopeCheckConfig::new());
    assert_eq!(scope.file_name, "main.rs");
    assert_eq!(scope.field_idx, 0);
    assert_eq!(scope.check_config, ScopeCheckConfig::new());
    assert!(scope.same_file("main.rs"));
    assert!(!scope.same_file("main.r"));
    assert!(!scope.same_file("lib.rs"));
    assert_eq!(scope.get_item_config("f"), Some(&entry(Some("f"), enabled(false))));
    assert_eq!(scope.get_item_config("get"), None);
    let point = scope.get_item_config("Point");
    assert!(point.is_some());

    let mut config = ScopeCheckConfig::new();
    config.inherited.enabled = false;
    let child = scope.from_item(point, config);
    assert_eq!(child.file_name, "main.rs");
    assert_eq!(child.field_idx, 0);
    assert!(!child.check_config.inherited.enabled);
    assert_eq!(child.get_item_config("get"), Some(&entry(Some("get"), enabled(false))));
    assert_eq!(child.get_item_config("f"), None);

    let leaf = scope.from_item(None, ScopeCheckConfig::new());
    assert_eq!(leaf.items, None);
    assert_eq!(leaf.get_item_config("f"), None);

    let unknown = ScopeConfig::new(&external, s("lib.rs"), ScopeCheckConfig::new());
    assert_eq!(unknown.items, None);
    assert_eq!(unknown.get_item_config("f"), None);
}
