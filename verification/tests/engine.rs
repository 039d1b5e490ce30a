use cross_check_plugin::checker::{build_xcheck, CrossChecker};
use cross_check_plugin::config::{
    FunctionCheckConfig, InheritedCheckConfig, ItemCheckConfig, ScopeCheckConfig, Settings,
    StructCheckConfig,
};
use cross_check_plugin::directive::{CheckDirective, FieldDirective, FieldId};
use cross_check_plugin::error::CheckError;
use cross_check_plugin::external::{ExternalConfig, FileConfig, ItemEntry};
use cross_check_plugin::scope::ScopeConfig;
use cross_check_plugin::span::{EmittedSymbols, SourceMap, Span, SpanScope, SpanScopeMap};
use cross_check_plugin::tree::{
    Arg, Attribute, Block, Check, CheckKind, CheckTag, Expr, ExprKind, FieldMarker, FnDecl,
    ForeignItem, ForeignKind, HashBody, HashKey, HashOption, Item, ItemKind, Local, MetaArg,
    MetaValue, Pattern, Stmt, StructField, Variant, VariantData,
};

const JODY: &str = "::cross_check_runtime::hash::jodyhash::JodyHasher";
const SIMPLE: &str = "::cross_check_runtime::hash::simple::SimpleHasher";

fn s(x: &str) -> String {
    x.to_string()
}

fn at(lo: u32) -> Span {
    Span { file: 0, lo, hi: lo + 1, ctxt: 0 }
}

fn in_file(file: u32, lo: u32) -> Span {
    Span { file, lo, hi: lo + 1, ctxt: 0 }
}

fn source_map() -> SourceMap {
    SourceMap { files: vec![s("main.rs"), s("other.rs")], expansions: vec![None] }
}

fn word(name: &str) -> MetaArg {
    MetaArg { name: s(name), value: MetaValue::Nothing }
}

fn text(name: &str, value: &str) -> MetaArg {
    MetaArg { name: s(name), value: MetaValue::Str(s(value)) }
}

fn list(name: &str, items: Vec<MetaArg>) -> MetaArg {
    MetaArg { name: s(name), value: MetaValue::List(items) }
}

fn cross_check(items: Vec<MetaArg>) -> Attribute {
    Attribute::Source(list("cross_check", items))
}

fn leaf(lo: u32, tokens: &str) -> Expr {
    Expr { span: at(lo), kind: ExprKind::Leaf(s(tokens)) }
}

fn ident_arg(name: &str, ty: &str) -> Arg {
    Arg { pat: Pattern::Ident(s(name)), ty: s(ty) }
}

fn function(name: &str, lo: u32, inputs: Vec<Arg>, output: Option<&str>, stmts: Vec<Stmt>) -> Item {
    Item {
        ident: s(name),
        attrs: vec![],
        span: at(lo),
        kind: ItemKind::Fn(FnDecl { inputs, output: output.map(s) }, Block { stmts }),
    }
}

fn f_plus_one() -> Item {
    function("f", 10, vec![ident_arg("x", "i32")], Some("i32"), vec![Stmt::Expr(leaf(20, "x + 1"))])
}

fn check(tag: CheckTag, name: &str, kind: CheckKind) -> Stmt {
    Stmt::Check(Check { tag, name: s(name), kind })
}

fn aliases() -> Stmt {
    Stmt::HasherAliases(s(JODY), s(SIMPLE))
}

fn field(name: Option<&str>, attrs: Vec<Attribute>) -> StructField {
    StructField { ident: name.map(s), attrs, ty: s("u32") }
}

fn aggregate(name: &str, lo: u32, kind: ItemKind) -> Item {
    Item { ident: s(name), attrs: vec![], span: at(lo), kind }
}

fn entry(name: Option<&str>, settings: Settings) -> ItemEntry {
    ItemEntry { name: name.map(s), settings, nested: vec![] }
}

fn main_file(items: Vec<ItemEntry>) -> ExternalConfig {
    ExternalConfig { files: vec![FileConfig { name: s("main.rs"), items }] }
}

fn no_external() -> ExternalConfig {
    ExternalConfig::new()
}

fn engine<'a>(external: &'a ExternalConfig, cx: &'a SourceMap, export: bool) -> CrossChecker<'a> {
    let top = ScopeConfig::new(external, s("main.rs"), ScopeCheckConfig::new());
    CrossChecker::new(external, cx, top, false, export, SpanScopeMap::new(), EmittedSymbols::new())
}

fn engine_under<'a>(
    external: &'a ExternalConfig,
    cx: &'a SourceMap,
    config: ScopeCheckConfig,
) -> CrossChecker<'a> {
    let top = ScopeConfig::new(external, s("main.rs"), config);
    CrossChecker::new(external, cx, top, false, false, SpanScopeMap::new(), EmittedSymbols::new())
}

fn body_of(item: &Item) -> &Vec<Stmt> {
    match &item.kind {
        ItemKind::Fn(_, block) => &block.stmts,
        other => panic!("no function: {:?}", other),
    }
}

fn fields_of(item: &Item) -> &Vec<StructField> {
    match &item.kind {
        ItemKind::Struct(data) | ItemKind::Union(data) => &data.fields,
        other => panic!("no aggregate: {:?}", other),
    }
}

#[test]
fn function_with_default_checks() {
    let external = no_external();
    let cx = source_map();
    let mut checker = engine(&external, &cx, false);
    let out = checker.fold_item(f_plus_one()).unwrap();
    assert_eq!(out.len(), 1);
    assert_eq!(
        body_of(&out[0]),
        &vec![
            aliases(),
            check(CheckTag::FunctionEntry, "f", CheckKind::Hash),
            check(CheckTag::FunctionArg, "x", CheckKind::Hash),
            Stmt::CallBody(s("i32"), Block { stmts: vec![Stmt::Expr(leaf(20, "x + 1"))] }),
            check(CheckTag::FunctionExit, "f", CheckKind::Hash),
            check(CheckTag::FunctionReturn, "f", CheckKind::Hash),
            Stmt::YieldResult,
        ]
    );
    // the signature stays
    match &out[0].kind {
        ItemKind::Fn(decl, _) => {
            assert_eq!(decl.inputs, vec![ident_arg("x", "i32")]);
            assert_eq!(decl.output, Some(s("i32")));
        }
        other => panic!("no function: {:?}", other),
    }
    assert_eq!(out[0].ident, "f");
    assert_eq!(out[0].span, at(10));
}

#[test]
fn function_without_return_type_keeps_unit() {
    let external = no_external();
    let cx = source_map();
    let mut checker = engine(&external, &cx, false);
    let out = checker.fold_item(function("g", 1, vec![], None, vec![])).unwrap();
    assert_eq!(
        body_of(&out[0]),
        &vec![
            aliases(),
            check(CheckTag::FunctionEntry, "g", CheckKind::Hash),
            Stmt::CallBody(s("()"), Block { stmts: vec![] }),
            check(CheckTag::FunctionExit, "g", CheckKind::Hash),
            check(CheckTag::FunctionReturn, "g", CheckKind::Hash),
            Stmt::YieldResult,
        ]
    );
}

#[test]
fn tuple_struct_field_one_excluded_inline() {
    let external = no_external();
    let cx = source_map();
    let mut checker = engine(&external, &cx, false);
    let item = aggregate(
        "T",
        1,
        ItemKind::Struct(VariantData {
            fields: vec![
                field(None, vec![]),
                field(None, vec![cross_check(vec![word("disabled")])]),
                field(None, vec![]),
            ],
        }),
    );
    let out = checker.fold_item(item).unwrap();
    assert_eq!(out.len(), 1);
    let fields = fields_of(&out[0]);
    assert_eq!(fields.len(), 3);
    assert_eq!(fields[0].attrs, vec![]);
    assert_eq!(fields[1].attrs, vec![Attribute::FieldHash(FieldMarker::Exclude)]);
    assert_eq!(fields[2].attrs, vec![]);
    assert_eq!(out[0].attrs, vec![Attribute::DeriveHash]);
}

#[test]
fn tuple_struct_field_one_excluded_by_external_entry() {
    let mut settings = Settings::new();
    settings.fields.push(FieldDirective {
        field: FieldId::Index(1),
        directive: CheckDirective::Disabled,
    });
    let external = main_file(vec![entry(Some("T"), settings)]);
    let cx = source_map();
    let mut checker = engine(&external, &cx, false);
    let item = aggregate(
        "T",
        1,
        ItemKind::Struct(VariantData {
            fields: vec![field(None, vec![]), field(None, vec![]), field(None, vec![])],
        }),
    );
    let out = checker.fold_item(item).unwrap();
    let fields = fields_of(&out[0]);
    assert_eq!(fields[0].attrs, vec![]);
    assert_eq!(fields[1].attrs, vec![Attribute::FieldHash(FieldMarker::Exclude)]);
    assert_eq!(fields[2].attrs, vec![]);
}

#[test]
fn disabled_function_has_aliases_and_no_checks() {
    let external = no_external();
    let cx = source_map();
    let mut config = ScopeCheckConfig::new();
    config.inherited.enabled = false;
    let mut checker = engine_under(&external, &cx, config);
    let out = checker.fold_item(f_plus_one()).unwrap();
    assert_eq!(body_of(&out[0]), &vec![aliases(), Stmt::Expr(leaf(20, "x + 1"))]);
}

#[test]
fn inline_directive_overrides_parent() {
    let external = no_external();
    let cx = source_map();
    let mut checker = engine(&external, &cx, false);
    let mut item = f_plus_one();
    item.attrs = vec![cross_check(vec![
        list("entry", vec![MetaArg { name: s("fixed"), value: MetaValue::Int(7) }]),
        list("exit", vec![word("disabled")]),
        list("ret", vec![text("custom", "r()")]),
        list("args", vec![word("disabled")]),
        text("ahasher", "A"),
    ])];
    let scope = checker.build_new_scope(&item).unwrap();
    assert!(scope.check_config.inherited.enabled);
    assert_eq!(scope.check_config.inherited.ahasher, Some(s("A")));
    assert_eq!(scope.check_config.inherited.shasher, None);
    assert_eq!(scope.check_config.inherited.entry, CheckDirective::Fixed(7));
    let out = checker.fold_item(item).unwrap();
    assert_eq!(
        body_of(&out[0]),
        &vec![
            Stmt::HasherAliases(s("A"), s(SIMPLE)),
            check(CheckTag::FunctionEntry, "f", CheckKind::Fixed(7)),
            Stmt::CallBody(s("i32"), Block { stmts: vec![Stmt::Expr(leaf(20, "x + 1"))] }),
            check(CheckTag::FunctionReturn, "f", CheckKind::Custom(s("r()"))),
            Stmt::YieldResult,
        ]
    );
}

#[test]
fn external_entry_wins_over_inline_directive() {
    let mut settings = Settings::new();
    settings.enabled = Some(true);
    settings.ahasher = Some(s("External"));
    let external = main_file(vec![entry(Some("f"), settings)]);
    let cx = source_map();
    let checker = engine(&external, &cx, false);
    let mut item = f_plus_one();
    item.attrs = vec![cross_check(vec![
        MetaArg { name: s("enabled"), value: MetaValue::Bool(false) },
        text("ahasher", "Inline"),
        text("shasher", "InlineSimple"),
    ])];
    let scope = checker.build_new_scope(&item).unwrap();
    assert!(scope.check_config.inherited.enabled);
    assert_eq!(scope.check_config.inherited.ahasher, Some(s("External")));
    assert_eq!(scope.check_config.inherited.shasher, Some(s("InlineSimple")));
    assert_eq!(scope.file_name, "main.rs");
    assert_eq!(scope.field_idx, 0);
}

#[test]
fn scope_without_overrides_equals_parent() {
    let external = no_external();
    let cx = source_map();
    let mut config = ScopeCheckConfig::new();
    config.inherited.enabled = false;
    config.inherited.ahasher = Some(s("P"));
    config.inherited.ret = CheckDirective::Disabled;
    let checker = engine_under(&external, &cx, config);
    let scope = checker.build_new_scope(&f_plus_one()).unwrap();
    assert_eq!(
        scope.check_config.inherited,
        InheritedCheckConfig {
            enabled: false,
            entry: CheckDirective::Default,
            exit: CheckDirective::Default,
            all_args: CheckDirective::Default,
            ret: CheckDirective::Disabled,
            ahasher: Some(s("P")),
            shasher: None,
        }
    );
    assert_eq!(
        scope.check_config.item,
        ItemCheckConfig::Function(FunctionCheckConfig {
            args: vec![],
            entry_extra: vec![],
            exit_extra: vec![],
        })
    );
}

#[test]
fn module_in_new_file_starts_from_file_defaults() {
    let mut defaults = Settings::new();
    defaults.enabled = Some(false);
    let external = ExternalConfig {
        files: vec![FileConfig { name: s("other.rs"), items: vec![entry(None, defaults)] }],
    };
    let cx = source_map();
    let mut parent = ScopeCheckConfig::new();
    parent.inherited.ahasher = Some(s("ParentHasher"));
    let checker = engine_under(&external, &cx, parent);
    let module = Item {
        ident: s("m"),
        attrs: vec![],
        span: at(1),
        kind: ItemKind::Mod(in_file(1, 0), vec![]),
    };
    let scope = checker.build_new_scope(&module).unwrap();
    assert_eq!(scope.file_name, "other.rs");
    assert!(!scope.check_config.inherited.enabled);
    // built fresh: nothing of the parent is left
    assert_eq!(scope.check_config.inherited.ahasher, None);
    assert_eq!(scope.check_config.item, ItemCheckConfig::Other);
    assert!(scope.items.is_some());
}

#[test]
fn module_in_unconfigured_new_file_inherits() {
    let external = no_external();
    let cx = source_map();
    let mut parent = ScopeCheckConfig::new();
    parent.inherited.ahasher = Some(s("ParentHasher"));
    let checker = engine_under(&external, &cx, parent);
    let module = Item {
        ident: s("m"),
        attrs: vec![],
        span: at(1),
        kind: ItemKind::Mod(in_file(1, 0), vec![]),
    };
    let scope = checker.build_new_scope(&module).unwrap();
    assert_eq!(scope.file_name, "other.rs");
    assert_eq!(scope.check_config.inherited.ahasher, Some(s("ParentHasher")));
    assert!(scope.items.is_none());
}

#[test]
fn file_change_on_function_is_rejected() {
    let external = no_external();
    let cx = source_map();
    let mut checker = engine(&external, &cx, false);
    let mut item = f_plus_one();
    item.span = in_file(1, 10);
    assert_eq!(checker.build_new_scope(&item).err(), Some(CheckError::FileBoundary));
    assert_eq!(checker.fold_item(item), Err(CheckError::FileBoundary));
}

#[test]
fn malformed_inline_directive_is_rejected() {
    let external = no_external();
    let cx = source_map();
    let mut checker = engine(&external, &cx, false);
    let mut item = f_plus_one();
    item.attrs = vec![cross_check(vec![word("sometimes")])];
    assert_eq!(checker.fold_item(item), Err(CheckError::MalformedDirective));
}

#[test]
fn destructured_argument_is_rejected() {
    let external = no_external();
    let cx = source_map();
    let mut checker = engine(&external, &cx, false);
    let item = function(
        "f",
        1,
        vec![Arg { pat: Pattern::Other(s("(a, b)")), ty: s("(u8, u8)") }],
        None,
        vec![],
    );
    assert_eq!(checker.fold_item(item), Err(CheckError::UnsupportedPattern));
}

#[test]
fn destructured_argument_passes_where_checks_are_disabled() {
    let external = no_external();
    let cx = source_map();
    let mut config = ScopeCheckConfig::new();
    config.inherited.enabled = false;
    let mut checker = engine_under(&external, &cx, config);
    let item = function(
        "f",
        1,
        vec![Arg { pat: Pattern::Other(s("(a, b)")), ty: s("(u8, u8)") }],
        None,
        vec![],
    );
    let out = checker.fold_item(item).unwrap();
    assert_eq!(body_of(&out[0]), &vec![aliases()]);
}

#[test]
fn reserved_directive_is_rejected() {
    let external = no_external();
    let cx = source_map();
    let mut checker = engine(&external, &cx, false);
    let mut item = f_plus_one();
    item.attrs = vec![cross_check(vec![list("entry", vec![text("named", "djb2")])])];
    assert_eq!(checker.fold_item(item), Err(CheckError::ReservedDirective));

    let mut checker = engine(&external, &cx, false);
    let item = aggregate(
        "S",
        1,
        ItemKind::Struct(VariantData {
            fields: vec![field(Some("a"), vec![cross_check(vec![text("named", "djb2")])])],
        }),
    );
    assert_eq!(checker.fold_item(item), Err(CheckError::ReservedDirective));
}

#[test]
fn build_xcheck_by_directive() {
    let name = s("v");
    let tag = CheckTag::FunctionArg;
    let made = |kind| Ok(Some(Check { tag, name: s("v"), kind }));
    assert_eq!(build_xcheck(&CheckDirective::Default, tag, &name, true), made(CheckKind::Hash));
    assert_eq!(build_xcheck(&CheckDirective::Disabled, tag, &name, true), Ok(None));
    assert_eq!(build_xcheck(&CheckDirective::Fixed(9), tag, &name, true), made(CheckKind::Fixed(9)));
    assert_eq!(
        build_xcheck(&CheckDirective::AsType(s("u8")), tag, &name, true),
        made(CheckKind::HashAs(s("u8")))
    );
    assert_eq!(
        build_xcheck(&CheckDirective::AsType(s("u8")), tag, &name, false),
        made(CheckKind::Hash)
    );
    assert_eq!(
        build_xcheck(&CheckDirective::Custom(s("h(v)")), tag, &name, true),
        made(CheckKind::Custom(s("h(v)")))
    );
    assert_eq!(
        build_xcheck(&CheckDirective::Named(s("djb2")), tag, &name, true),
        Err(CheckError::ReservedDirective)
    );
}

#[test]
fn argument_override_and_extras() {
    let external = no_external();
    let cx = source_map();
    let mut checker = engine(&external, &cx, false);
    let mut item = function(
        "f",
        1,
        vec![ident_arg("a", "u8"), ident_arg("b", "u8"), ident_arg("c", "u8")],
        Some("u8"),
        vec![],
    );
    item.attrs = vec![cross_check(vec![
        list(
            "args",
            vec![
                list("b", vec![text("as_type", "u32")]),
                word("disabled"),
                list("c", vec![MetaArg { name: s("fixed"), value: MetaValue::Int(3) }]),
                list("b", vec![word("default")]),
            ],
        ),
        list("entry_extra", vec![text("custom", "e1()"), text("custom", "e2()")]),
        list("exit_extra", vec![text("custom", "x1()")]),
    ])];
    let out = checker.fold_item(item).unwrap();
    assert_eq!(
        body_of(&out[0]),
        &vec![
            aliases(),
            check(CheckTag::FunctionEntry, "f", CheckKind::Hash),
            // a: disabled for all; b: its later entry wins; c: fixed
            check(CheckTag::FunctionArg, "b", CheckKind::Hash),
            check(CheckTag::FunctionArg, "c", CheckKind::Fixed(3)),
            check(CheckTag::FunctionEntry, "f", CheckKind::Extra(s("e1()"))),
            check(CheckTag::FunctionEntry, "f", CheckKind::Extra(s("e2()"))),
            Stmt::CallBody(s("u8"), Block { stmts: vec![] }),
            check(CheckTag::FunctionExit, "f", CheckKind::Hash),
            check(CheckTag::FunctionReturn, "f", CheckKind::Hash),
            check(CheckTag::FunctionExit, "f", CheckKind::Extra(s("x1()"))),
            Stmt::YieldResult,
        ]
    );
}

#[test]
fn build_arg_xcheck_falls_back_to_all_args() {
    let external = no_external();
    let cx = source_map();
    let mut config = ScopeCheckConfig::new();
    config.inherited.all_args = CheckDirective::Fixed(1);
    config.item = ItemCheckConfig::Function(FunctionCheckConfig {
        args: vec![FieldDirective { field: FieldId::Name(s("x")), directive: CheckDirective::Default }],
        entry_extra: vec![],
        exit_extra: vec![],
    });
    let checker = engine_under(&external, &cx, config);
    assert_eq!(
        checker.build_arg_xcheck(&ident_arg("x", "u8")),
        Ok(Some(Check { tag: CheckTag::FunctionArg, name: s("x"), kind: CheckKind::Hash }))
    );
    assert_eq!(
        checker.build_arg_xcheck(&ident_arg("y", "u8")),
        Ok(Some(Check { tag: CheckTag::FunctionArg, name: s("y"), kind: CheckKind::Fixed(1) }))
    );
    assert_eq!(
        checker.build_arg_xcheck(&Arg { pat: Pattern::Other(s("_")), ty: s("u8") }),
        Err(CheckError::UnsupportedPattern)
    );
}

#[test]
fn hasher_pair_defaults_and_overrides() {
    let external = no_external();
    let cx = source_map();
    let checker = engine(&external, &cx, false);
    let (a, b) = checker.get_hasher_pair();
    assert_eq!(a, JODY);
    assert_eq!(b, SIMPLE);
    let mut config = ScopeCheckConfig::new();
    config.inherited.shasher = Some(s("Mine"));
    let checker = engine_under(&external, &cx, config);
    let (a, b) = checker.get_hasher_pair();
    assert_eq!(a, JODY);
    assert_eq!(b, "Mine");
}

#[test]
fn field_positions_restart_with_every_aggregate() {
    // position 1 of every aggregate in the scope gets the marker
    let mut settings = Settings::new();
    settings.fields.push(FieldDirective {
        field: FieldId::Index(1),
        directive: CheckDirective::Fixed(5),
    });
    let external = main_file(vec![entry(Some("E"), settings)]);
    let cx = source_map();
    let mut checker = engine(&external, &cx, false);
    let item = aggregate(
        "E",
        1,
        ItemKind::Enum(vec![
            Variant {
                ident: s("A"),
                data: VariantData {
                    fields: vec![field(None, vec![]), field(None, vec![]), field(None, vec![])],
                },
            },
            Variant {
                ident: s("B"),
                data: VariantData { fields: vec![field(None, vec![]), field(None, vec![])] },
            },
            Variant { ident: s("C"), data: VariantData { fields: vec![field(None, vec![])] } },
        ]),
    );
    let out = checker.fold_item(item).unwrap();
    let marker = vec![Attribute::FieldHash(FieldMarker::Fixed(5))];
    match &out[0].kind {
        ItemKind::Enum(variants) => {
            let a = &variants[0].data.fields;
            assert_eq!(a[0].attrs, vec![]);
            assert_eq!(a[1].attrs, marker);
            assert_eq!(a[2].attrs, vec![]);
            let b = &variants[1].data.fields;
            assert_eq!(b[0].attrs, vec![]);
            assert_eq!(b[1].attrs, marker);
            let c = &variants[2].data.fields;
            assert_eq!(c[0].attrs, vec![]);
        }
        other => panic!("no enum: {:?}", other),
    }
}

#[test]
fn fold_variant_data_resets_the_cursor() {
    let external = no_external();
    let cx = source_map();
    let mut checker = engine(&external, &cx, false);
    checker.scope_stack[0].field_idx = 17;
    let data = VariantData { fields: vec![field(None, vec![]), field(Some("n"), vec![]), field(None, vec![])] };
    let out = checker.fold_variant_data(data).unwrap();
    assert_eq!(out.fields.len(), 3);
    // two fields without a name were counted, from zero
    assert_eq!(checker.last_scope().field_idx, 2);
}

#[test]
fn fold_struct_field_uses_and_moves_the_cursor() {
    let external = no_external();
    let cx = source_map();
    let mut config = ScopeCheckConfig::new();
    config.item = ItemCheckConfig::Struct(StructCheckConfig {
        custom_hash: None,
        field_hasher: None,
        fields: vec![
            FieldDirective { field: FieldId::Index(4), directive: CheckDirective::AsType(s("u64")) },
            FieldDirective { field: FieldId::Name(s("n")), directive: CheckDirective::Custom(s("h")) },
        ],
    });
    let mut checker = engine_under(&external, &cx, config);
    checker.scope_stack[0].field_idx = 4;
    let out = checker.fold_struct_field(field(None, vec![])).unwrap();
    assert_eq!(out.attrs, vec![Attribute::FieldHash(FieldMarker::AsType(s("u64")))]);
    assert_eq!(checker.last_scope().field_idx, 5);
    let out = checker.fold_struct_field(field(None, vec![])).unwrap();
    assert_eq!(out.attrs, vec![]);
    assert_eq!(checker.last_scope().field_idx, 6);
    // a named field leaves the cursor; the external directive wins over the inline one
    let inline = vec![cross_check(vec![word("disabled")])];
    let out = checker.fold_struct_field(field(Some("n"), inline)).unwrap();
    assert_eq!(out.attrs, vec![Attribute::FieldHash(FieldMarker::Custom(s("h")))]);
    assert_eq!(checker.last_scope().field_idx, 6);
}

#[test]
fn field_directive_is_removed_and_marker_appended() {
    let external = no_external();
    let cx = source_map();
    let mut checker = engine(&external, &cx, false);
    let doc = Attribute::Source(text("doc", "a field"));
    let repr = Attribute::Source(word("inline"));
    let f = field(
        Some("a"),
        vec![
            Attribute::Source(text("doc", "a field")),
            cross_check(vec![MetaArg { name: s("fixed"), value: MetaValue::Int(77) }]),
            Attribute::Source(word("inline")),
            cross_check(vec![word("disabled")]),
        ],
    );
    let out = checker.fold_struct_field(f).unwrap();
    // the first directive counts
    assert_eq!(out.attrs, vec![doc, repr, Attribute::FieldHash(FieldMarker::Fixed(77))]);
    // a default directive leaves no marker, and is removed all the same
    let f = field(Some("b"), vec![cross_check(vec![word("default")])]);
    assert_eq!(checker.fold_struct_field(f).unwrap().attrs, vec![]);
    // so is a bare one
    let f = field(Some("c"), vec![Attribute::Source(word("cross_check"))]);
    assert_eq!(checker.fold_struct_field(f).unwrap().attrs, vec![]);
    // two actions are one too many
    let f = field(Some("d"), vec![cross_check(vec![word("default"), word("disabled")])]);
    assert_eq!(checker.fold_struct_field(f), Err(CheckError::MalformedDirective));
}

#[test]
fn struct_markers_carry_the_set_values() {
    let external = no_external();
    let cx = source_map();
    let mut checker = engine(&external, &cx, false);
    let mut item = aggregate("S", 1, ItemKind::Struct(VariantData { fields: vec![] }));
    item.attrs = vec![cross_check(vec![
        text("custom_hash", "my_hash"),
        text("shasher", "SH"),
        text("field_hasher", "FH"),
    ])];
    let out = checker.fold_item(item).unwrap();
    assert_eq!(out.len(), 1);
    assert_eq!(
        out[0].attrs,
        vec![
            cross_check(vec![
                text("custom_hash", "my_hash"),
                text("shasher", "SH"),
                text("field_hasher", "FH"),
            ]),
            Attribute::DeriveHash,
            Attribute::HashConfig(vec![
                HashOption { key: HashKey::SimpleHasher, value: s("SH") },
                HashOption { key: HashKey::FieldHasher, value: s("FH") },
                HashOption { key: HashKey::CustomHash, value: s("my_hash") },
            ]),
        ]
    );
}

#[test]
fn build_hash_attr_args_in_order() {
    let external = no_external();
    let cx = source_map();
    let mut config = ScopeCheckConfig::new();
    config.inherited.ahasher = Some(s("AH"));
    config.inherited.shasher = Some(s("SH"));
    config.item = ItemCheckConfig::Struct(StructCheckConfig {
        custom_hash: Some(s("CH")),
        field_hasher: Some(s("FH")),
        fields: vec![],
    });
    let checker = engine_under(&external, &cx, config);
    assert_eq!(
        checker.build_hash_attr_args(),
        vec![
            HashOption { key: HashKey::AggregateHasher, value: s("AH") },
            HashOption { key: HashKey::SimpleHasher, value: s("SH") },
            HashOption { key: HashKey::FieldHasher, value: s("FH") },
            HashOption { key: HashKey::CustomHash, value: s("CH") },
        ]
    );
    let checker = engine(&external, &cx, false);
    assert_eq!(checker.build_hash_attr_args(), vec![]);
}

#[test]
fn disabled_struct_gets_no_marker() {
    let external = no_external();
    let cx = source_map();
    let mut config = ScopeCheckConfig::new();
    config.inherited.enabled = false;
    let top = ScopeConfig::new(&external, s("main.rs"), config);
    let mut checker =
        CrossChecker::new(&external, &cx, top, false, true, SpanScopeMap::new(), EmittedSymbols::new());
    let item = aggregate("S", 1, ItemKind::Struct(VariantData { fields: vec![] }));
    let out = checker.fold_item(item).unwrap();
    assert_eq!(out, vec![aggregate("S", 1, ItemKind::Struct(VariantData { fields: vec![] }))]);
    assert_eq!(checker.c_hash_functions.names, Vec::<String>::new());
}

#[test]
fn union_gets_explicit_hash_implementation() {
    let external = no_external();
    let cx = source_map();
    let mut checker = engine(&external, &cx, false);
    let item = aggregate("U", 3, ItemKind::Union(VariantData { fields: vec![field(Some("a"), vec![])] }));
    let out = checker.fold_item(item).unwrap();
    assert_eq!(
        out,
        vec![
            aggregate("U", 3, ItemKind::Union(VariantData { fields: vec![field(Some("a"), vec![])] })),
            aggregate("U", 3, ItemKind::HashImpl(HashBody::Opaque)),
        ]
    );
    assert_eq!(checker.pending_items, vec![]);
}

#[test]
fn union_with_custom_hash() {
    let external = no_external();
    let cx = source_map();
    let mut checker = engine(&external, &cx, false);
    let mut item = aggregate("U", 3, ItemKind::Union(VariantData { fields: vec![] }));
    item.attrs = vec![cross_check(vec![text("custom_hash", "hash_u(self)")])];
    let out = checker.fold_item(item).unwrap();
    assert_eq!(out.len(), 2);
    assert_eq!(out[1], aggregate("U", 3, ItemKind::HashImpl(HashBody::Custom(s("hash_u(self)")))));
    // no derive marker on a union
    assert_eq!(out[0].attrs, vec![cross_check(vec![text("custom_hash", "hash_u(self)")])]);
}

#[test]
fn build_union_hash_reads_the_scope() {
    let external = no_external();
    let cx = source_map();
    let checker = engine(&external, &cx, false);
    assert_eq!(
        checker.build_union_hash(&s("U"), at(9)),
        aggregate("U", 9, ItemKind::HashImpl(HashBody::Opaque))
    );
}

#[test]
fn c_hash_function_is_exported_once() {
    let external = no_external();
    let cx = source_map();
    let mut checker = engine(&external, &cx, true);
    let module = Item {
        ident: s("m"),
        attrs: vec![],
        span: at(0),
        kind: ItemKind::Mod(
            at(0),
            vec![
                aggregate("T", 1, ItemKind::Struct(VariantData { fields: vec![] })),
                aggregate("T", 2, ItemKind::Union(VariantData { fields: vec![] })),
                aggregate("T", 3, ItemKind::Enum(vec![])),
            ],
        ),
    };
    let out = checker.fold_item(module).unwrap();
    assert_eq!(out.len(), 1);
    let items = match &out[0].kind {
        ItemKind::Mod(_, items) => items,
        other => panic!("no module: {:?}", other),
    };
    let export = Item {
        ident: s("__c2rust_hash_T"),
        attrs: vec![],
        span: at(1),
        kind: ItemKind::HashExport(s("T"), s(JODY), s(SIMPLE)),
    };
    let mut first = aggregate("T", 1, ItemKind::Struct(VariantData { fields: vec![] }));
    first.attrs = vec![Attribute::DeriveHash];
    let mut third = aggregate("T", 3, ItemKind::Enum(vec![]));
    third.attrs = vec![Attribute::DeriveHash];
    assert_eq!(
        items,
        &vec![
            first,
            export,
            aggregate("T", 2, ItemKind::Union(VariantData { fields: vec![] })),
            aggregate("T", 2, ItemKind::HashImpl(HashBody::Opaque)),
            third,
        ]
    );
    assert_eq!(checker.c_hash_functions.names, vec![s("__c2rust_hash_T")]);
}

#[test]
fn build_type_c_hash_function_twice() {
    let external = no_external();
    let cx = source_map();
    let mut checker = engine(&external, &cx, true);
    let first = checker.build_type_c_hash_function(&s("Point"), at(1));
    assert_eq!(
        first,
        Some(Item {
            ident: s("__c2rust_hash_Point"),
            attrs: vec![],
            span: at(1),
            kind: ItemKind::HashExport(s("Point"), s(JODY), s(SIMPLE)),
        })
    );
    assert_eq!(checker.build_type_c_hash_function(&s("Point"), at(2)), None);
    assert!(checker.build_type_c_hash_function(&s("Line"), at(3)).is_some());
    assert_eq!(checker.build_type_c_hash_function(&s("Point"), at(4)), None);
    assert_eq!(
        checker.c_hash_functions.names,
        vec![s("__c2rust_hash_Point"), s("__c2rust_hash_Line")]
    );
}

#[test]
fn no_export_unless_asked_for() {
    let external = no_external();
    let cx = source_map();
    let mut checker = engine(&external, &cx, false);
    let item = aggregate("T", 1, ItemKind::Struct(VariantData { fields: vec![] }));
    let out = checker.fold_item(item).unwrap();
    assert_eq!(out.len(), 1);
    assert_eq!(checker.c_hash_functions.names, Vec::<String>::new());
}

#[test]
fn foreign_type_gets_forwarding_hash() {
    let external = no_external();
    let cx = source_map();
    let mut checker = engine(&external, &cx, false);
    let ty = || ForeignItem { ident: s("FILE"), span: at(5), kind: ForeignKind::Type };
    let func = || ForeignItem { ident: s("fopen"), span: at(6), kind: ForeignKind::Other };
    let item = aggregate("", 4, ItemKind::ForeignMod(vec![ty(), func(), ty()]));
    let out = checker.fold_item(item).unwrap();
    let hash = aggregate("FILE", 5, ItemKind::HashImpl(HashBody::Foreign(s("__c2rust_hash_FILE"))));
    assert_eq!(
        out,
        vec![
            aggregate("", 4, ItemKind::ForeignMod(vec![ty(), func(), ty()])),
            hash,
            aggregate("FILE", 5, ItemKind::HashImpl(HashBody::Foreign(s("__c2rust_hash_FILE")))),
        ]
    );
}

#[test]
fn fold_foreign_item_leaves_function_alone() {
    let external = no_external();
    let cx = source_map();
    let mut checker = engine(&external, &cx, false);
    let func = ForeignItem { ident: s("fopen"), span: at(6), kind: ForeignKind::Other };
    let out = checker.fold_foreign_item(func);
    assert_eq!(out, ForeignItem { ident: s("fopen"), span: at(6), kind: ForeignKind::Other });
    assert_eq!(checker.pending_items, vec![]);
    let ty = ForeignItem { ident: s("FILE"), span: at(5), kind: ForeignKind::Type };
    checker.fold_foreign_item(ty);
    assert_eq!(checker.pending_items.len(), 1);
}

#[test]
fn local_with_directive_gets_value_check() {
    let external = no_external();
    let cx = source_map();
    let mut checker = engine(&external, &cx, false);
    let local = |pat: Pattern, marked: bool| {
        Stmt::Local(Local {
            span: at(30),
            pat,
            attrs: if marked { vec![Attribute::Source(word("cross_check"))] } else { vec![] },
            init: Some(leaf(31, "1")),
        })
    };
    let out = checker.fold_stmt(local(Pattern::Ident(s("a")), true)).unwrap();
    assert_eq!(
        out,
        vec![
            local(Pattern::Ident(s("a")), true),
            check(CheckTag::Value, "a", CheckKind::Hash),
        ]
    );
    let out = checker.fold_stmt(local(Pattern::Ident(s("a")), false)).unwrap();
    assert_eq!(out, vec![local(Pattern::Ident(s("a")), false)]);
    let out = checker.fold_stmt(local(Pattern::Other(s("(a, b)")), false)).unwrap();
    assert_eq!(out, vec![local(Pattern::Other(s("(a, b)")), false)]);
    assert_eq!(
        checker.fold_stmt(local(Pattern::Other(s("(a, b)")), true)),
        Err(CheckError::UnsupportedPattern)
    );
}

#[test]
fn nested_function_is_instrumented_before_its_parent() {
    let external = no_external();
    let cx = source_map();
    let mut checker = engine(&external, &cx, false);
    let inner = function("inner", 40, vec![], None, vec![]);
    let outer = function("outer", 10, vec![], None, vec![Stmt::Item(inner)]);
    let out = checker.fold_item(outer).unwrap();
    let inner_body = vec![
        aliases(),
        check(CheckTag::FunctionEntry, "inner", CheckKind::Hash),
        Stmt::CallBody(s("()"), Block { stmts: vec![] }),
        check(CheckTag::FunctionExit, "inner", CheckKind::Hash),
        check(CheckTag::FunctionReturn, "inner", CheckKind::Hash),
        Stmt::YieldResult,
    ];
    let mut folded_inner = function("inner", 40, vec![], None, vec![]);
    folded_inner.kind = ItemKind::Fn(FnDecl { inputs: vec![], output: None }, Block { stmts: inner_body });
    assert_eq!(
        body_of(&out[0]),
        &vec![
            aliases(),
            check(CheckTag::FunctionEntry, "outer", CheckKind::Hash),
            Stmt::CallBody(s("()"), Block { stmts: vec![Stmt::Item(folded_inner)] }),
            check(CheckTag::FunctionExit, "outer", CheckKind::Hash),
            check(CheckTag::FunctionReturn, "outer", CheckKind::Hash),
            Stmt::YieldResult,
        ]
    );
}

#[test]
fn pending_items_follow_the_item_inside_a_body() {
    let external = no_external();
    let cx = source_map();
    let mut checker = engine(&external, &cx, false);
    let union_item = aggregate("U", 40, ItemKind::Union(VariantData { fields: vec![] }));
    let outer = function("outer", 10, vec![], None, vec![Stmt::Item(union_item), Stmt::Expr(leaf(50, "0"))]);
    let out = checker.fold_item(outer).unwrap();
    assert_eq!(out.len(), 1);
    match &body_of(&out[0])[2] {
        Stmt::CallBody(_, block) => assert_eq!(
            block.stmts,
            vec![
                Stmt::Item(aggregate("U", 40, ItemKind::Union(VariantData { fields: vec![] }))),
                Stmt::Item(aggregate("U", 40, ItemKind::HashImpl(HashBody::Opaque))),
                Stmt::Expr(leaf(50, "0")),
            ]
        ),
        other => panic!("no body: {:?}", other),
    }
}

#[test]
fn method_is_configured_under_its_type() {
    let mut method_settings = Settings::new();
    method_settings.exit = Some(CheckDirective::Disabled);
    let mut impl_settings = Settings::new();
    impl_settings.ret = Some(CheckDirective::Disabled);
    let external = main_file(vec![
        // a free function of the same name is configured otherwise
        entry(Some("get"), {
            let mut other = Settings::new();
            other.enabled = Some(false);
            other
        }),
        ItemEntry {
            name: Some(s("Point")),
            settings: impl_settings,
            nested: vec![entry(Some("get"), method_settings)],
        },
    ]);
    let cx = source_map();
    let mut checker = engine(&external, &cx, false);
    let block = Item {
        ident: s(""),
        attrs: vec![],
        span: at(1),
        kind: ItemKind::Impl(
            s("Point"),
            vec![
                function("get", 2, vec![ident_arg("self", "&Self")], Some("u8"), vec![]),
                Item { ident: s("ZERO"), attrs: vec![], span: at(3), kind: ItemKind::Other(s("const ZERO: u8 = 0;")) },
            ],
        ),
    };
    let out = checker.fold_item(block).unwrap();
    assert_eq!(out.len(), 1);
    let members = match &out[0].kind {
        ItemKind::Impl(ty, members) => {
            assert_eq!(ty, "Point");
            members
        }
        other => panic!("no impl: {:?}", other),
    };
    assert_eq!(
        body_of(&members[0]),
        &vec![
            aliases(),
            check(CheckTag::FunctionEntry, "get", CheckKind::Hash),
            check(CheckTag::FunctionArg, "self", CheckKind::Hash),
            Stmt::CallBody(s("u8"), Block { stmts: vec![] }),
            Stmt::YieldResult,
        ]
    );
    assert_eq!(
        members[1],
        Item { ident: s("ZERO"), attrs: vec![], span: at(3), kind: ItemKind::Other(s("const ZERO: u8 = 0;")) }
    );
}

#[test]
fn fold_impl_item_leaves_other_members() {
    let external = no_external();
    let cx = source_map();
    let mut checker = engine(&external, &cx, false);
    let member =
        || Item { ident: s("T"), attrs: vec![], span: at(3), kind: ItemKind::Other(s("type T = u8;")) };
    assert_eq!(checker.fold_impl_item(member()), Ok(member()));
    assert_eq!(checker.scope_stack.len(), 1);
    assert_eq!(checker.macro_scopes.records, vec![]);
}

#[test]
fn locations_of_statements_and_expressions_are_recorded() {
    let external = no_external();
    let cx = source_map();
    let mut checker = engine(&external, &cx, false);
    let mut item = function(
        "f",
        10,
        vec![],
        None,
        vec![
            Stmt::Mac(at(20), s("println!()")),
            Stmt::Expr(Expr {
                span: at(30),
                kind: ExprKind::Compound(s("call"), vec![leaf(31, "g"), leaf(32, "1")]),
            }),
        ],
    );
    item.attrs = vec![cross_check(vec![text("ahasher", "A")])];
    let out = checker.fold_item(item).unwrap();
    assert_eq!(out.len(), 1);
    let mut inherited = InheritedCheckConfig::new();
    inherited.ahasher = Some(s("A"));
    let record = |lo: u32| SpanScope {
        span: at(lo),
        config: InheritedCheckConfig {
            enabled: true,
            entry: CheckDirective::Default,
            exit: CheckDirective::Default,
            all_args: CheckDirective::Default,
            ret: CheckDirective::Default,
            ahasher: Some(s("A")),
            shasher: None,
        },
    };
    assert_eq!(
        checker.macro_scopes.records,
        vec![record(20), record(30), record(30), record(31), record(32)]
    );
    assert_eq!(checker.scope_stack.len(), 1);
}

#[test]
fn macro_item_records_its_location() {
    let external = no_external();
    let cx = source_map();
    let mut checker = engine(&external, &cx, false);
    let item = || Item { ident: s(""), attrs: vec![], span: at(7), kind: ItemKind::Mac(s("decl!()")) };
    assert_eq!(checker.fold_item(item()), Ok(vec![item()]));
    assert_eq!(checker.macro_scopes.records.len(), 1);
    assert_eq!(checker.macro_scopes.records[0].span, at(7));
    assert_eq!(checker.fold_mac(s("m!()")), "m!()");
}

#[test]
fn skip_first_scope_uses_the_scope_that_is_there() {
    let external = no_external();
    let cx = source_map();
    let mut config = ScopeCheckConfig::from_item(
        &ItemKind::Fn(FnDecl { inputs: vec![], output: None }, Block { stmts: vec![] }),
        InheritedCheckConfig::new(),
    );
    config.inherited.exit = CheckDirective::Disabled;
    let top = ScopeConfig::new(&external, s("main.rs"), config);
    let mut checker =
        CrossChecker::new(&external, &cx, top, true, false, SpanScopeMap::new(), EmittedSymbols::new());
    let mut item = function("f", 1, vec![], None, vec![Stmt::Item(function("g", 2, vec![], None, vec![]))]);
    // the directive on the first item itself is not read again
    item.attrs = vec![cross_check(vec![word("sometimes")])];
    let out = checker.fold_item(item).unwrap();
    assert!(!checker.skip_first_scope);
    let body = body_of(&out[0]);
    assert_eq!(body.len(), 5);
    assert_eq!(body[1], check(CheckTag::FunctionEntry, "f", CheckKind::Hash));
    assert_eq!(body[3], check(CheckTag::FunctionReturn, "f", CheckKind::Hash));
    // the item inside gets a scope of its own, and inherits
    match &body[2] {
        Stmt::CallBody(_, block) => match &block.stmts[0] {
            Stmt::Item(g) => assert_eq!(body_of(g).len(), 5),
            other => panic!("no item: {:?}", other),
        },
        other => panic!("no body: {:?}", other),
    }
}

#[test]
fn rewriting_twice_gives_the_same() {
    let make = || Item {
        ident: s("m"),
        attrs: vec![],
        span: at(0),
        kind: ItemKind::Mod(
            at(0),
            vec![
                f_plus_one(),
                aggregate(
                    "S",
                    50,
                    ItemKind::Struct(VariantData {
                        fields: vec![field(None, vec![cross_check(vec![text("as_type", "u8")])])],
                    }),
                ),
                aggregate("U", 60, ItemKind::Union(VariantData { fields: vec![] })),
            ],
        ),
    };
    let external = no_external();
    let cx = source_map();
    let mut first = engine(&external, &cx, true);
    let mut second = engine(&external, &cx, true);
    let a = first.fold_item(make()).unwrap();
    let b = second.fold_item(make()).unwrap();
    assert_eq!(a, b);
    assert_eq!(first, second);
    assert_ne!(a, vec![make()]);
}

#[test]
fn build_function_xchecks_wraps_the_block() {
    let external = no_external();
    let cx = source_map();
    let mut config = ScopeCheckConfig::new();
    config.inherited.entry = CheckDirective::Disabled;
    config.inherited.ret = CheckDirective::AsType(s("u64"));
    config.inherited.all_args = CheckDirective::Custom(s("h(x)"));
    let checker = engine_under(&external, &cx, config);
    let decl = FnDecl { inputs: vec![ident_arg("x", "u8")], output: Some(s("u8")) };
    let block = Block { stmts: vec![Stmt::Expr(leaf(1, "x"))] };
    let out = checker.build_function_xchecks(&s("f"), &decl, block).unwrap();
    assert_eq!(
        out.stmts,
        vec![
            aliases(),
            check(CheckTag::FunctionArg, "x", CheckKind::Custom(s("h(x)"))),
            Stmt::CallBody(s("u8"), Block { stmts: vec![Stmt::Expr(leaf(1, "x"))] }),
            check(CheckTag::FunctionExit, "f", CheckKind::Hash),
            check(CheckTag::FunctionReturn, "f", CheckKind::HashAs(s("u64"))),
            Stmt::YieldResult,
        ]
    );
}

#[test]
fn build_extra_xchecks_one_for_each() {
    let out = CrossChecker::build_extra_xchecks(
        &s("f"),
        CheckTag::FunctionExit,
        &vec![s("a()"), s("b()")],
    );
    assert_eq!(
        out,
        vec![
            check(CheckTag::FunctionExit, "f", CheckKind::Extra(s("a()"))),
            check(CheckTag::FunctionExit, "f", CheckKind::Extra(s("b()"))),
        ]
    );
}

#[test]
fn expression_blocks_are_descended_into() {
    let external = no_external();
    let cx = source_map();
    let mut checker = engine(&external, &cx, false);
    let inner = aggregate("U", 5, ItemKind::Union(VariantData { fields: vec![] }));
    let e = Expr {
        span: at(1),
        kind: ExprKind::Compound(
            s("if"),
            vec![leaf(2, "c"), Expr { span: at(3), kind: ExprKind::Block(Block { stmts: vec![Stmt::Item(inner)] }) }],
        ),
    };
    let out = checker.fold_expr(e).unwrap();
    match out.kind {
        ExprKind::Compound(_, parts) => match &parts[1].kind {
            ExprKind::Block(b) => assert_eq!(b.stmts.len(), 2),
            other => panic!("no block: {:?}", other),
        },
        other => panic!("no compound: {:?}", other),
    }
    let m = Expr { span: at(9), kind: ExprKind::Mac(s("vec![]")) };
    assert_eq!(checker.fold_expr(m), Ok(Expr { span: at(9), kind: ExprKind::Mac(s("vec![]")) }));
}

fn is_directive(a: &Attribute) -> bool {
    match a {
        Attribute::Source(m) => m.name == "cross_check",
        _ => false,
    }
}

fn is_added(a: &Attribute) -> bool {
    !matches!(a, Attribute::Source(_))
}

fn erase_fields(fields: Vec<StructField>) -> Vec<StructField> {
    fields
        .into_iter()
        .map(|f| StructField {
            ident: f.ident,
            attrs: f.attrs.into_iter().filter(|a| !is_added(a) && !is_directive(a)).collect(),
            ty: f.ty,
        })
        .collect()
}

fn erase_expr(e: Expr) -> Expr {
    let kind = match e.kind {
        ExprKind::Compound(t, parts) => {
            ExprKind::Compound(t, parts.into_iter().map(erase_expr).collect())
        }
        ExprKind::Block(b) => ExprKind::Block(Block { stmts: erase_stmts(b.stmts) }),
        other => other,
    };
    Expr { span: e.span, kind }
}

fn erase_stmts(stmts: Vec<Stmt>) -> Vec<Stmt> {
    let mut out = vec![];
    for stmt in stmts {
        match stmt {
            Stmt::Local(l) => out.push(Stmt::Local(Local {
                span: l.span,
                pat: l.pat,
                attrs: l.attrs,
                init: l.init.map(erase_expr),
            })),
            Stmt::Item(item) => out.extend(erase_item(item).into_iter().map(Stmt::Item)),
            Stmt::Expr(e) => out.push(Stmt::Expr(erase_expr(e))),
            Stmt::Mac(sp, t) => out.push(Stmt::Mac(sp, t)),
            Stmt::CallBody(_, b) => out.extend(erase_stmts(b.stmts)),
            Stmt::HasherAliases(_, _) | Stmt::Check(_) | Stmt::YieldResult => {}
        }
    }
    out
}

fn erase_items(items: Vec<Item>) -> Vec<Item> {
    items.into_iter().flat_map(erase_item).collect()
}

fn erase_item(item: Item) -> Vec<Item> {
    let kind = match item.kind {
        ItemKind::HashImpl(_) | ItemKind::HashExport(_, _, _) => return vec![],
        ItemKind::Fn(decl, body) => ItemKind::Fn(decl, Block { stmts: erase_stmts(body.stmts) }),
        ItemKind::Mod(inner, items) => ItemKind::Mod(inner, erase_items(items)),
        ItemKind::Struct(d) => ItemKind::Struct(VariantData { fields: erase_fields(d.fields) }),
        ItemKind::Union(d) => ItemKind::Union(VariantData { fields: erase_fields(d.fields) }),
        ItemKind::Enum(vs) => ItemKind::Enum(
            vs.into_iter()
                .map(|v| Variant { ident: v.ident, data: VariantData { fields: erase_fields(v.data.fields) } })
                .collect(),
        ),
        ItemKind::Impl(ty, items) => ItemKind::Impl(ty, erase_items(items)),
        other => other,
    };
    vec![Item {
        ident: item.ident,
        attrs: item.attrs.into_iter().filter(|a| !is_added(a)).collect(),
        span: item.span,
        kind,
    }]
}

#[test]
fn taking_the_additions_away_gives_the_item_back() {
    let make = || Item {
        ident: s("m"),
        attrs: vec![],
        span: at(0),
        kind: ItemKind::Mod(
            at(0),
            vec![
                function(
                    "f",
                    10,
                    vec![ident_arg("x", "i32")],
                    Some("i32"),
                    vec![
                        Stmt::Local(Local {
                            span: at(11),
                            pat: Pattern::Ident(s("y")),
                            attrs: vec![Attribute::Source(word("cross_check"))],
                            init: Some(leaf(12, "x")),
                        }),
                        Stmt::Item(aggregate("U", 13, ItemKind::Union(VariantData { fields: vec![] }))),
                        Stmt::Item(function("g", 14, vec![], None, vec![Stmt::Mac(at(15), s("m!()"))])),
                        Stmt::Expr(leaf(16, "y + 1")),
                    ],
                ),
                aggregate(
                    "S",
                    50,
                    ItemKind::Struct(VariantData {
                        fields: vec![
                            field(Some("a"), vec![Attribute::Source(word("inline"))]),
                            field(None, vec![cross_check(vec![text("as_type", "u8")])]),
                        ],
                    }),
                ),
                aggregate(
                    "",
                    60,
                    ItemKind::ForeignMod(vec![ForeignItem { ident: s("T"), span: at(61), kind: ForeignKind::Type }]),
                ),
                Item {
                    ident: s(""),
                    attrs: vec![],
                    span: at(70),
                    kind: ItemKind::Impl(s("S"), vec![function("get", 71, vec![], None, vec![])]),
                },
            ],
        ),
    };
    let external = no_external();
    let cx = source_map();
    let mut checker = engine(&external, &cx, true);
    let out = checker.fold_item(make()).unwrap();
    assert_ne!(out, vec![make()]);
    assert_eq!(erase_items(out), erase_item(make()));
}
