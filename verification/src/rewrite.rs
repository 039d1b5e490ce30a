//! What rewriting yields: the definition of the rewritten tree, and of the
//! engine's state after each step, on the views of both.

use vstd::prelude::*;
use crate::attr::{cross_check_attr, directive_settings, field_directive, is_cross_check};
use crate::config::{
    InheritedView, ItemConfigView, ScopeCheckView, SettingsView, fresh_item_config, merge_settings,
};
use crate::directive::{DirectiveView, FieldDirectiveView, FieldIdView, table_get};
use crate::error::CheckError;
use crate::external::{FileConfigView, ItemEntryView, file_defaults};
use crate::scope::{ScopeView, file_scope, item_scope, scope_entry};
use crate::span::{SourceMapView, Span, SpanScopeView, file_name_of};
use crate::text::Text;
use crate::tree::{
    ArgView, AttributeView, Block, BlockView, Check, CheckKindView, CheckTag, CheckView, Expr,
    ExprKindView, ExprView, FieldMarkerView, FnDeclView, ForeignItemView, ForeignKind,
    HashBodyView, HashKey, HashOptionView, Item, ItemKindView, ItemView, Local, LocalView,
    PatternView, Stmt, StmtView, StructFieldView, VariantDataView, VariantView, stmts_view,
};

verus! {

/// The engine as contracts see it.
pub struct CheckerView {
    pub external: Seq<FileConfigView>,
    pub map: SourceMapView,
    pub scopes: Seq<ScopeView>,
    pub default_ahasher: Text,
    pub default_shasher: Text,
    pub pending: Seq<ItemView>,
    pub skip_first: bool,
    pub export: bool,
    pub log: Seq<SpanScopeView>,
    pub emitted: Seq<Text>,
}

/// The aggregate hasher of the engine.
pub open spec fn default_ahasher() -> Text {
    "::cross_check_runtime::hash::jodyhash::JodyHasher"@
}

/// The simple hasher of the engine.
pub open spec fn default_shasher() -> Text {
    "::cross_check_runtime::hash::simple::SimpleHasher"@
}

/// The configuration of the innermost scope.
pub open spec fn config_of(c: CheckerView) -> ScopeCheckView {
    c.scopes.last().check_config
}

/// The hashers in force under an inherited configuration: its own, or
/// the given defaults where it names none.
pub open spec fn hashers(inherited: InheritedView, ahasher: Text, shasher: Text) -> (Text, Text) {
    (
        match inherited.ahasher {
            Some(h) => h,
            None => ahasher,
        },
        match inherited.shasher {
            Some(h) => h,
            None => shasher,
        },
    )
}

/// The aggregate hasher and the simple hasher in force in the innermost
/// scope.
pub open spec fn hasher_pair(c: CheckerView) -> (Text, Text) {
    hashers(config_of(c).inherited, c.default_ahasher, c.default_shasher)
}

/// What a check under the directive `d` emits, if it emits anything. A
/// name has no type to be seen as, so that `AsType` hashes it as it is.
/// The reserved directive yields no check but an error.
pub open spec fn check_kind(d: DirectiveView, of_value: bool) -> Result<
    Option<CheckKindView>,
    CheckError,
> {
    match d {
        DirectiveView::Default => Ok(Some(CheckKindView::Hash)),
        DirectiveView::Disabled => Ok(None),
        DirectiveView::Fixed(v) => Ok(Some(CheckKindView::Fixed(v))),
        DirectiveView::AsType(t) => if of_value {
            Ok(Some(CheckKindView::HashAs(t)))
        } else {
            Ok(Some(CheckKindView::Hash))
        },
        DirectiveView::Custom(e) => Ok(Some(CheckKindView::Custom(e))),
        DirectiveView::Named(_) => Err(CheckError::ReservedDirective),
    }
}

/// The check that the directive `d` asks for at the point `tag` of `name`.
pub open spec fn built_check(d: DirectiveView, tag: CheckTag, name: Text, of_value: bool) -> Result<
    Option<CheckView>,
    CheckError,
> {
    match check_kind(d, of_value) {
        Ok(Some(kind)) => Ok(Some(CheckView { tag, name, kind })),
        Ok(None) => Ok(None),
        Err(e) => Err(e),
    }
}

/// The directives that a scope holds for single arguments.
pub open spec fn function_args(cfg: ScopeCheckView) -> Seq<FieldDirectiveView> {
    match cfg.item {
        ItemConfigView::Function(f) => f.args,
        _ => Seq::empty(),
    }
}

/// The extra expressions that a scope checks at entry.
pub open spec fn entry_extras(cfg: ScopeCheckView) -> Seq<Text> {
    match cfg.item {
        ItemConfigView::Function(f) => f.entry_extra,
        _ => Seq::empty(),
    }
}

/// The extra expressions that a scope checks at exit.
pub open spec fn exit_extras(cfg: ScopeCheckView) -> Seq<Text> {
    match cfg.item {
        ItemConfigView::Function(f) => f.exit_extra,
        _ => Seq::empty(),
    }
}

/// The directive in force for the argument `name`: its own, or the one for
/// all arguments.
pub open spec fn arg_directive(cfg: ScopeCheckView, name: Text) -> DirectiveView {
    match table_get(function_args(cfg), FieldIdView::Name(name)) {
        Some(d) => d,
        None => cfg.inherited.all_args,
    }
}

/// The check of one argument. An argument that no simple identifier binds
/// cannot be checked.
pub open spec fn arg_check(cfg: ScopeCheckView, arg: ArgView) -> Result<Option<CheckView>, CheckError> {
    match arg.pat {
        PatternView::Ident(name) => built_check(
            arg_directive(cfg, name),
            CheckTag::FunctionArg,
            name,
            true,
        ),
        PatternView::Other(_) => Err(CheckError::UnsupportedPattern),
    }
}

/// The statements of an optional check.
pub open spec fn opt_stmt(c: Option<CheckView>) -> Seq<StmtView> {
    match c {
        Some(c) => seq![StmtView::Check(c)],
        None => Seq::empty(),
    }
}

/// `acc` with the checks of the arguments from `i` on behind it.
pub open spec fn arg_checks(cfg: ScopeCheckView, inputs: Seq<ArgView>, i: int, acc: Seq<StmtView>) -> Result<
    Seq<StmtView>,
    CheckError,
>
    decreases inputs.len() - i,
{
    if i < 0 || i >= inputs.len() {
        Ok(acc)
    } else {
        match arg_check(cfg, inputs[i]) {
            Ok(c) => arg_checks(cfg, inputs, i + 1, acc + opt_stmt(c)),
            Err(e) => Err(e),
        }
    }
}

/// The checks of a list of extra expressions: one for each, in order.
pub open spec fn extra_checks(name: Text, tag: CheckTag, extras: Seq<Text>) -> Seq<StmtView> {
    Seq::new(
        extras.len(),
        |i: int| StmtView::Check(CheckView { tag, name, kind: CheckKindView::Extra(extras[i]) }),
    )
}

/// The type under which the result of a function's body is kept: the
/// declared one, or the unit type.
pub open spec fn result_type(decl: FnDeclView) -> Text {
    match decl.output {
        Some(t) => t,
        None => "()"@,
    }
}

/// The body of a function after instrumentation.
///
/// It starts with the declaration of the two hashers, whatever the
/// configuration says. Where checks are enabled there follow, in this
/// order: the entry check, the checks of the arguments in their order, the
/// extra entry checks, the body as it was written, run as a computation of
/// its own, the exit check, the check of the result, the extra exit
/// checks, and the result. Where checks are disabled the statements of the
/// body follow as they were written.
pub open spec fn function_body(
    cfg: ScopeCheckView,
    pair: (Text, Text),
    ident: Text,
    decl: FnDeclView,
    block: BlockView,
) -> Result<BlockView, CheckError> {
    let aliases = seq![StmtView::HasherAliases(pair.0, pair.1)];
    if !cfg.inherited.enabled {
        Ok(BlockView { stmts: aliases + block.stmts })
    } else {
        match built_check(cfg.inherited.entry, CheckTag::FunctionEntry, ident, false) {
            Err(e) => Err(e),
            Ok(entry) => match built_check(cfg.inherited.exit, CheckTag::FunctionExit, ident, false) {
                Err(e) => Err(e),
                Ok(exit) => match arg_checks(cfg, decl.inputs, 0, Seq::empty()) {
                    Err(e) => Err(e),
                    Ok(args) => match built_check(
                        cfg.inherited.ret,
                        CheckTag::FunctionReturn,
                        ident,
                        true,
                    ) {
                        Err(e) => Err(e),
                        Ok(ret) => Ok(
                            BlockView {
                                stmts: aliases + opt_stmt(entry) + args + extra_checks(
                                    ident,
                                    CheckTag::FunctionEntry,
                                    entry_extras(cfg),
                                ) + seq![StmtView::CallBody(result_type(decl), block)] + opt_stmt(
                                    exit,
                                ) + opt_stmt(ret) + extra_checks(
                                    ident,
                                    CheckTag::FunctionExit,
                                    exit_extras(cfg),
                                ) + seq![StmtView::YieldResult],
                            },
                        ),
                    },
                },
            },
        }
    }
}

/// The view of statements that were built, or of the error instead.
pub open spec fn stmts_result(r: Result<Vec<Stmt>, CheckError>) -> Result<Seq<StmtView>, CheckError> {
    match r {
        Ok(v) => Ok(stmts_view(v@)),
        Err(e) => Err(e),
    }
}

/// The view of a block that was built, or of the error instead.
pub open spec fn block_result(r: Result<Block, CheckError>) -> Result<BlockView, CheckError> {
    match r {
        Ok(b) => Ok(b@),
        Err(e) => Err(e),
    }
}

/// One setting of a marker, where the configuration gives it.
pub open spec fn opt_option(key: HashKey, value: Option<Text>) -> Seq<HashOptionView> {
    match value {
        Some(t) => seq![HashOptionView { key, value: t }],
        None => Seq::empty(),
    }
}

/// The hasher that merges fields, as a scope configures it.
pub open spec fn field_hasher_of(cfg: ScopeCheckView) -> Option<Text> {
    match cfg.item {
        ItemConfigView::Struct(s) => s.field_hasher,
        _ => None,
    }
}

/// The expression that hashes the aggregate, as a scope configures it.
pub open spec fn custom_hash_of(cfg: ScopeCheckView) -> Option<Text> {
    match cfg.item {
        ItemConfigView::Struct(s) => s.custom_hash,
        _ => None,
    }
}

/// The directives that a scope holds for single fields.
pub open spec fn struct_fields(cfg: ScopeCheckView) -> Seq<FieldDirectiveView> {
    match cfg.item {
        ItemConfigView::Struct(s) => s.fields,
        _ => Seq::empty(),
    }
}

/// The settings that the hash configuration marker of an aggregate
/// carries: those among the aggregate hasher, the simple hasher, the field
/// hasher and the custom hash that the scope sets, in this order.
pub open spec fn hash_attr_args(cfg: ScopeCheckView) -> Seq<HashOptionView> {
    opt_option(HashKey::AggregateHasher, cfg.inherited.ahasher) + opt_option(
        HashKey::SimpleHasher,
        cfg.inherited.shasher,
    ) + opt_option(HashKey::FieldHasher, field_hasher_of(cfg)) + opt_option(
        HashKey::CustomHash,
        custom_hash_of(cfg),
    )
}

/// The name of the hash function with C linkage for the type `ty`.
pub open spec fn c_hash_name(ty: Text) -> Text {
    "__c2rust_hash_"@ + ty
}

/// The hash implementation of the union `ident`: by the custom hash
/// expression where the scope sets one, else the standard one of unions,
/// which reads no field.
pub open spec fn union_hash(cfg: ScopeCheckView, ident: Text, span: Span) -> ItemView {
    ItemView {
        ident,
        attrs: Seq::empty(),
        span,
        kind: ItemKindView::HashImpl(
            match custom_hash_of(cfg) {
                Some(e) => HashBodyView::Custom(e),
                None => HashBodyView::Opaque,
            },
        ),
    }
}

/// The exported hash function for the type `ty`, unless one of its name
/// was emitted before.
pub open spec fn c_hash_item(c: CheckerView, ty: Text, span: Span) -> Option<ItemView> {
    if c.emitted.contains(c_hash_name(ty)) {
        None
    } else {
        Some(
            ItemView {
                ident: c_hash_name(ty),
                attrs: Seq::empty(),
                span,
                kind: ItemKindView::HashExport(ty, hasher_pair(c).0, hasher_pair(c).1),
            },
        )
    }
}

/// The engine after the exported hash function for `ty` was asked for:
/// its name is among the emitted ones, once.
pub open spec fn c_hash_state(c: CheckerView, ty: Text) -> CheckerView {
    if c.emitted.contains(c_hash_name(ty)) {
        c
    } else {
        CheckerView { emitted: c.emitted.push(c_hash_name(ty)), ..c }
    }
}

/// The engine with one more pending item.
pub open spec fn with_pending(c: CheckerView, item: ItemView) -> CheckerView {
    CheckerView { pending: c.pending.push(item), ..c }
}

/// The engine after the hash function for `ty` was exported where export
/// is asked for: the function is pending unless it was emitted before.
pub open spec fn exported(c: CheckerView, ty: Text, span: Span) -> CheckerView {
    if c.export {
        match c_hash_item(c, ty, span) {
            Some(item) => with_pending(c_hash_state(c, ty), item),
            None => c_hash_state(c, ty),
        }
    } else {
        c
    }
}

/// The engine with the field cursor of the innermost scope at `idx`.
pub open spec fn with_field_idx(c: CheckerView, idx: usize) -> CheckerView {
    CheckerView {
        scopes: c.scopes.update(
            c.scopes.len() - 1,
            ScopeView { field_idx: idx, ..c.scopes.last() },
        ),
        ..c
    }
}

/// The identity of a field: its name, or for a field without one the
/// position that the cursor of the innermost scope shows.
pub open spec fn field_id(c: CheckerView, f: StructFieldView) -> FieldIdView {
    match f.ident {
        Some(n) => FieldIdView::Name(n),
        None => FieldIdView::Index(c.scopes.last().field_idx),
    }
}

/// The engine after a field got its identity: a field without a name
/// moves the cursor on by one.
pub open spec fn after_field(c: CheckerView, f: StructFieldView) -> CheckerView {
    match f.ident {
        Some(_) => c,
        None => with_field_idx(c, (c.scopes.last().field_idx + 1) as usize),
    }
}

/// The directive that the attributes of a field give.
pub open spec fn inline_field_directive(attrs: Seq<AttributeView>) -> Result<
    Option<DirectiveView>,
    CheckError,
> {
    match cross_check_attr(attrs) {
        Some(m) => field_directive(m),
        None => Ok(None),
    }
}

/// The directive in force for a field: the one of the external
/// configuration where it has one, else the inline one.
pub open spec fn field_choice(cfg: ScopeCheckView, id: FieldIdView, inline: Option<DirectiveView>) -> Option<
    DirectiveView,
> {
    match table_get(struct_fields(cfg), id) {
        Some(d) => Some(d),
        None => inline,
    }
}

/// The marker that a directive puts on a field.
pub open spec fn field_marker(d: DirectiveView) -> Result<Option<FieldMarkerView>, CheckError> {
    match d {
        DirectiveView::Default => Ok(None),
        DirectiveView::AsType(t) => Ok(Some(FieldMarkerView::AsType(t))),
        DirectiveView::Disabled => Ok(Some(FieldMarkerView::Exclude)),
        DirectiveView::Fixed(v) => Ok(Some(FieldMarkerView::Fixed(v))),
        DirectiveView::Custom(e) => Ok(Some(FieldMarkerView::Custom(e))),
        DirectiveView::Named(_) => Err(CheckError::ReservedDirective),
    }
}

/// The marker of a field under the directive in force for it, if any.
pub open spec fn chosen_marker(d: Option<DirectiveView>) -> Result<Option<FieldMarkerView>, CheckError> {
    match d {
        Some(d) => field_marker(d),
        None => Ok(None),
    }
}

/// `acc` with the attributes from `i` on behind it that are no inline
/// directives.
pub open spec fn kept_attrs(attrs: Seq<AttributeView>, i: int, acc: Seq<AttributeView>) -> Seq<
    AttributeView,
>
    decreases attrs.len() - i,
{
    if i < 0 || i >= attrs.len() {
        acc
    } else if is_cross_check(attrs[i]) {
        kept_attrs(attrs, i + 1, acc)
    } else {
        kept_attrs(attrs, i + 1, acc.push(attrs[i]))
    }
}

/// The attributes of a marker, if there is one.
pub open spec fn opt_marker(m: Option<FieldMarkerView>) -> Seq<AttributeView> {
    match m {
        Some(m) => seq![AttributeView::FieldHash(m)],
        None => Seq::empty(),
    }
}

/// A field after rewriting, and the engine after it: the field loses its
/// inline directives and gains the marker of the directive in force.
pub open spec fn folded_field(c: CheckerView, f: StructFieldView) -> Result<
    (StructFieldView, CheckerView),
    CheckError,
> {
    match inline_field_directive(f.attrs) {
        Err(e) => Err(e),
        Ok(inline) => match chosen_marker(field_choice(config_of(c), field_id(c, f), inline)) {
            Err(e) => Err(e),
            Ok(m) => Ok(
                (
                    StructFieldView {
                        ident: f.ident,
                        attrs: kept_attrs(f.attrs, 0, Seq::empty()) + opt_marker(m),
                        ty: f.ty,
                    },
                    after_field(c, f),
                ),
            ),
        },
    }
}

/// `acc` with the fields from `i` on behind it, rewritten in order.
pub open spec fn folded_fields(
    c: CheckerView,
    fields: Seq<StructFieldView>,
    i: int,
    acc: Seq<StructFieldView>,
) -> Result<(Seq<StructFieldView>, CheckerView), CheckError>
    decreases fields.len() - i,
{
    if i < 0 || i >= fields.len() {
        Ok((acc, c))
    } else {
        match folded_field(c, fields[i]) {
            Ok((f, c1)) => folded_fields(c1, fields, i + 1, acc.push(f)),
            Err(e) => Err(e),
        }
    }
}

/// The body of an aggregate after rewriting: the cursor starts at zero,
/// whatever it showed before.
pub open spec fn folded_variant_data(c: CheckerView, data: VariantDataView) -> Result<
    (VariantDataView, CheckerView),
    CheckError,
> {
    match folded_fields(with_field_idx(c, 0), data.fields, 0, Seq::empty()) {
        Ok((fields, c1)) => Ok((VariantDataView { fields }, c1)),
        Err(e) => Err(e),
    }
}

/// `acc` with the variants from `i` on behind it, rewritten in order.
pub open spec fn folded_variants(c: CheckerView, variants: Seq<VariantView>, i: int, acc: Seq<VariantView>) -> Result<
    (Seq<VariantView>, CheckerView),
    CheckError,
>
    decreases variants.len() - i,
{
    if i < 0 || i >= variants.len() {
        Ok((acc, c))
    } else {
        match folded_variant_data(c, variants[i].data) {
            Ok((data, c1)) => folded_variants(
                c1,
                variants,
                i + 1,
                acc.push(VariantView { ident: variants[i].ident, data }),
            ),
            Err(e) => Err(e),
        }
    }
}

/// The hash implementation of a foreign type: a call of the hash function
/// with C linkage that is named after the type.
pub open spec fn foreign_hash(f: ForeignItemView) -> ItemView {
    ItemView {
        ident: f.ident,
        attrs: Seq::empty(),
        span: f.span,
        kind: ItemKindView::HashImpl(HashBodyView::Foreign(c_hash_name(f.ident))),
    }
}

/// The engine after a foreign declaration: a type leaves its hash
/// implementation pending.
pub open spec fn after_foreign_item(c: CheckerView, f: ForeignItemView) -> CheckerView {
    if f.kind == ForeignKind::Type {
        with_pending(c, foreign_hash(f))
    } else {
        c
    }
}

/// The engine after the foreign declarations from `i` on.
pub open spec fn after_foreign_items(c: CheckerView, items: Seq<ForeignItemView>, i: int) -> CheckerView
    decreases items.len() - i,
{
    if i < 0 || i >= items.len() {
        c
    } else {
        after_foreign_items(after_foreign_item(c, items[i]), items, i + 1)
    }
}

/// The engine after it recorded, for the location `sp`, the inherited
/// configuration of the innermost scope.
pub open spec fn recorded(c: CheckerView, sp: Span) -> CheckerView {
    CheckerView {
        log: c.log.push(SpanScopeView { span: sp, config: config_of(c).inherited }),
        ..c
    }
}

/// The settings that the inline directive among `attrs` gives.
pub open spec fn inline_settings(attrs: Seq<AttributeView>) -> Result<Option<SettingsView>, CheckError> {
    match cross_check_attr(attrs) {
        Some(m) => match directive_settings(m) {
            Ok(s) => Ok(Some(s)),
            Err(e) => Err(e),
        },
        None => Ok(None),
    }
}

/// `c` with optional settings merged into it.
pub open spec fn merge_opt(c: ScopeCheckView, s: Option<SettingsView>) -> ScopeCheckView {
    match s {
        Some(s) => merge_settings(c, s),
        None => c,
    }
}

/// The configuration of an item: the baseline that it inherits, then the
/// settings of its inline directive, then those of its external entry, so
/// that for a field that both give the external entry wins.
pub open spec fn resolved(
    base: InheritedView,
    kind: ItemKindView,
    inline: Option<SettingsView>,
    external: Option<SettingsView>,
) -> ScopeCheckView {
    merge_opt(
        merge_opt(ScopeCheckView { inherited: base, item: fresh_item_config(kind) }, inline),
        external,
    )
}

/// The location by which an item's file is told: for a module that of its
/// body, which lies in the module's own file.
pub open spec fn file_span(item: ItemView) -> Span {
    match item.kind {
        ItemKindView::Mod(inner, _) => inner,
        _ => item.span,
    }
}

/// The name under which the external configuration files an item: for an
/// implementation block the type it is for.
pub open spec fn config_name(item: ItemView) -> Text {
    match item.kind {
        ItemKindView::Impl(ty, _) => ty,
        _ => item.ident,
    }
}

/// The inherited configuration that an item starts from: that of the
/// enclosing scope; but for an item in another file of which the external
/// configuration knows, the defaults of that file.
pub open spec fn baseline(c: CheckerView, file: Text) -> InheritedView {
    if c.scopes.last().file_name == file {
        config_of(c).inherited
    } else {
        match file_defaults(c.external, file) {
            Some(d) => d.inherited,
            None => config_of(c).inherited,
        }
    }
}

/// The settings of an optional external entry.
pub open spec fn entry_settings(e: Option<ItemEntryView>) -> Option<SettingsView> {
    match e {
        Some(e) => Some(e.settings),
        None => None,
    }
}

/// The scope of an item, resolved under the innermost scope of the engine.
/// An inline directive that is malformed stops the pass, and so does an
/// item in another file than the enclosing scope that is no module.
pub open spec fn new_scope(c: CheckerView, item: ItemView) -> Result<ScopeView, CheckError> {
    let last = c.scopes.last();
    let file = file_name_of(c.map, file_span(item));
    match inline_settings(item.attrs) {
        Err(e) => Err(e),
        Ok(inline) => {
            let entry = scope_entry(last, config_name(item));
            let config = resolved(baseline(c, file), item.kind, inline, entry_settings(entry));
            if last.file_name == file {
                Ok(item_scope(last, entry, config))
            } else if item.kind is Mod {
                Ok(file_scope(c.external, file, config))
            } else {
                Err(CheckError::FileBoundary)
            }
        },
    }
}

/// The statements that hold the items of `items`, one each.
pub open spec fn item_stmts(items: Seq<ItemView>) -> Seq<StmtView> {
    Seq::new(items.len(), |i: int| StmtView::Item(items[i]))
}

/// The check of the value of the local binding `name`.
pub open spec fn value_check(name: Text) -> StmtView {
    StmtView::Check(CheckView { tag: CheckTag::Value, name, kind: CheckKindView::Hash })
}

/// The statements that a local binding becomes: itself, and where it
/// carries an inline directive the check of its value behind it.
pub open spec fn local_stmts(l: LocalView) -> Result<Seq<StmtView>, CheckError> {
    if cross_check_attr(l.attrs).is_some() {
        match l.pat {
            PatternView::Ident(n) => Ok(seq![StmtView::Local(l), value_check(n)]),
            PatternView::Other(_) => Err(CheckError::UnsupportedPattern),
        }
    } else {
        Ok(seq![StmtView::Local(l)])
    }
}

/// The attributes of an aggregate after rewriting: where checks are
/// enabled it gains the marker that derives its hash and, where any
/// setting is set, the marker that carries the settings.
pub open spec fn aggregate_attrs(cfg: ScopeCheckView, attrs: Seq<AttributeView>) -> Seq<AttributeView> {
    if cfg.inherited.enabled {
        if hash_attr_args(cfg).len() > 0 {
            attrs + seq![AttributeView::DeriveHash, AttributeView::HashConfig(hash_attr_args(cfg))]
        } else {
            attrs + seq![AttributeView::DeriveHash]
        }
    } else {
        attrs
    }
}

/// An expression after rewriting, and the engine after it. The engine
/// records the location of every expression that it passes.
pub open spec fn folded_expr(c: CheckerView, e: ExprView) -> Result<(ExprView, CheckerView), CheckError>
    decreases e, 0nat,
{
    let c1 = recorded(c, e.span);
    match e.kind {
        ExprKindView::Compound(t, parts) => match folded_exprs(c1, parts, 0, Seq::empty()) {
            Ok((ps, c2)) => Ok((ExprView { span: e.span, kind: ExprKindView::Compound(t, ps) }, c2)),
            Err(err) => Err(err),
        },
        ExprKindView::Block(b) => match folded_block(c1, b) {
            Ok((b2, c2)) => Ok((ExprView { span: e.span, kind: ExprKindView::Block(b2) }, c2)),
            Err(err) => Err(err),
        },
        _ => Ok((e, c1)),
    }
}

/// `acc` with the expressions from `i` on behind it, rewritten in order.
pub open spec fn folded_exprs(c: CheckerView, parts: Seq<ExprView>, i: int, acc: Seq<ExprView>) -> Result<
    (Seq<ExprView>, CheckerView),
    CheckError,
>
    decreases parts, parts.len() - i,
{
    if i < 0 || i >= parts.len() {
        Ok((acc, c))
    } else {
        match folded_expr(c, parts[i]) {
            Ok((p, c1)) => folded_exprs(c1, parts, i + 1, acc.push(p)),
            Err(e) => Err(e),
        }
    }
}

/// A block after rewriting, and the engine after it.
pub open spec fn folded_block(c: CheckerView, b: BlockView) -> Result<(BlockView, CheckerView), CheckError>
    decreases b, 0nat,
{
    match folded_stmts(c, b.stmts, 0, Seq::empty()) {
        Ok((stmts, c1)) => Ok((BlockView { stmts }, c1)),
        Err(e) => Err(e),
    }
}

/// `acc` with what the statements from `i` on become behind it.
pub open spec fn folded_stmts(c: CheckerView, stmts: Seq<StmtView>, i: int, acc: Seq<StmtView>) -> Result<
    (Seq<StmtView>, CheckerView),
    CheckError,
>
    decreases stmts, stmts.len() - i,
{
    if i < 0 || i >= stmts.len() {
        Ok((acc, c))
    } else {
        match folded_stmt(c, stmts[i]) {
            Ok((out, c1)) => folded_stmts(c1, stmts, i + 1, acc + out),
            Err(e) => Err(e),
        }
    }
}

/// The statements that one statement becomes, and the engine after it. The
/// engine records the location of every statement of the source that it
/// passes. A statement that holds an item is followed by the items that
/// the item left pending; a local binding with an inline directive is
/// followed by the check of its value.
pub open spec fn folded_stmt(c: CheckerView, s: StmtView) -> Result<(Seq<StmtView>, CheckerView), CheckError>
    decreases s, 0nat,
{
    match s {
        StmtView::Local(l) => {
            let c1 = recorded(c, l.span);
            match l.init {
                Some(e) => match folded_expr(c1, e) {
                    Ok((e2, c2)) => match local_stmts(
                        LocalView { span: l.span, pat: l.pat, attrs: l.attrs, init: Some(e2) },
                    ) {
                        Ok(out) => Ok((out, c2)),
                        Err(err) => Err(err),
                    },
                    Err(err) => Err(err),
                },
                None => match local_stmts(l) {
                    Ok(out) => Ok((out, c1)),
                    Err(err) => Err(err),
                },
            }
        },
        StmtView::Item(item) => match folded_item(recorded(c, item.span), item) {
            Ok((items, c1)) => Ok((item_stmts(items), c1)),
            Err(err) => Err(err),
        },
        StmtView::Expr(e) => match folded_expr(recorded(c, e.span), e) {
            Ok((e2, c1)) => Ok((seq![StmtView::Expr(e2)], c1)),
            Err(err) => Err(err),
        },
        StmtView::Mac(sp, _) => Ok((seq![s], recorded(c, sp))),
        _ => Ok((seq![s], c)),
    }
}

/// `acc` with what the items from `i` on become behind it: each item is
/// followed by the items that it left pending.
pub open spec fn folded_items(c: CheckerView, items: Seq<ItemView>, i: int, acc: Seq<ItemView>) -> Result<
    (Seq<ItemView>, CheckerView),
    CheckError,
>
    decreases items, items.len() - i,
{
    if i < 0 || i >= items.len() {
        Ok((acc, c))
    } else {
        match folded_item(c, items[i]) {
            Ok((out, c1)) => folded_items(c1, items, i + 1, acc + out),
            Err(e) => Err(e),
        }
    }
}

/// A member of an implementation block after rewriting: a method is
/// rewritten as the function that it is, any other member stays.
pub open spec fn folded_impl_item(c: CheckerView, item: ItemView) -> Result<(ItemView, CheckerView), CheckError>
    decreases item, 3nat,
{
    if item.kind is Fn {
        folded_item_simple(c, item)
    } else {
        Ok((item, c))
    }
}

/// `acc` with the members from `i` on behind it, rewritten in order.
pub open spec fn folded_impl_items(c: CheckerView, items: Seq<ItemView>, i: int, acc: Seq<ItemView>) -> Result<
    (Seq<ItemView>, CheckerView),
    CheckError,
>
    decreases items, items.len() - i,
{
    if i < 0 || i >= items.len() {
        Ok((acc, c))
    } else {
        match folded_impl_item(c, items[i]) {
            Ok((item, c1)) => folded_impl_items(c1, items, i + 1, acc.push(item)),
            Err(e) => Err(e),
        }
    }
}

/// The content of an item after its children were rewritten.
pub open spec fn folded_kind(c: CheckerView, kind: ItemKindView) -> Result<(ItemKindView, CheckerView), CheckError>
    decreases kind, 0nat,
{
    match kind {
        ItemKindView::Fn(decl, body) => match folded_block(c, body) {
            Ok((b, c1)) => Ok((ItemKindView::Fn(decl, b), c1)),
            Err(e) => Err(e),
        },
        ItemKindView::Mod(inner, items) => match folded_items(c, items, 0, Seq::empty()) {
            Ok((out, c1)) => Ok((ItemKindView::Mod(inner, out), c1)),
            Err(e) => Err(e),
        },
        ItemKindView::Struct(data) => match folded_variant_data(c, data) {
            Ok((d, c1)) => Ok((ItemKindView::Struct(d), c1)),
            Err(e) => Err(e),
        },
        ItemKindView::Enum(variants) => match folded_variants(c, variants, 0, Seq::empty()) {
            Ok((v, c1)) => Ok((ItemKindView::Enum(v), c1)),
            Err(e) => Err(e),
        },
        ItemKindView::Union(data) => match folded_variant_data(c, data) {
            Ok((d, c1)) => Ok((ItemKindView::Union(d), c1)),
            Err(e) => Err(e),
        },
        ItemKindView::Impl(ty, items) => match folded_impl_items(c, items, 0, Seq::empty()) {
            Ok((out, c1)) => Ok((ItemKindView::Impl(ty, out), c1)),
            Err(e) => Err(e),
        },
        ItemKindView::ForeignMod(items) => Ok((kind, after_foreign_items(c, items, 0))),
        _ => Ok((kind, c)),
    }
}

/// An item after rewriting under the innermost scope, which is its own:
/// first its children, then the item itself by its kind.
///
/// - A function gets its body wrapped in checks.
/// - A union leaves its hash implementation pending and, where export is
///   asked for, its exported hash function.
/// - A struct or an enum gains its markers where checks are enabled, and
///   then leaves its exported hash function pending where export is asked
///   for.
/// - A macro invocation has its location recorded.
pub open spec fn folded_item_inner(c: CheckerView, item: ItemView) -> Result<(ItemView, CheckerView), CheckError>
    decreases item, 1nat,
{
    match folded_kind(c, item.kind) {
        Err(e) => Err(e),
        Ok((kind, c1)) => match kind {
            ItemKindView::Fn(decl, body) => match function_body(
                config_of(c1),
                hasher_pair(c1),
                item.ident,
                decl,
                body,
            ) {
                Ok(b) => Ok(
                    (
                        ItemView {
                            ident: item.ident,
                            attrs: item.attrs,
                            span: item.span,
                            kind: ItemKindView::Fn(decl, b),
                        },
                        c1,
                    ),
                ),
                Err(e) => Err(e),
            },
            ItemKindView::Union(_) => Ok(
                (
                    ItemView { ident: item.ident, attrs: item.attrs, span: item.span, kind },
                    exported(
                        with_pending(c1, union_hash(config_of(c1), item.ident, item.span)),
                        item.ident,
                        item.span,
                    ),
                ),
            ),
            ItemKindView::Struct(_) | ItemKindView::Enum(_) => Ok(
                (
                    ItemView {
                        ident: item.ident,
                        attrs: aggregate_attrs(config_of(c1), item.attrs),
                        span: item.span,
                        kind,
                    },
                    if config_of(c1).inherited.enabled {
                        exported(c1, item.ident, item.span)
                    } else {
                        c1
                    },
                ),
            ),
            ItemKindView::Mac(_) => Ok(
                (
                    ItemView { ident: item.ident, attrs: item.attrs, span: item.span, kind },
                    recorded(c1, item.span),
                ),
            ),
            _ => Ok((ItemView { ident: item.ident, attrs: item.attrs, span: item.span, kind }, c1)),
        },
    }
}

/// The engine with one more scope, innermost.
pub open spec fn pushed(c: CheckerView, scope: ScopeView) -> CheckerView {
    CheckerView { scopes: c.scopes.push(scope), ..c }
}

/// The engine without its innermost scope.
pub open spec fn popped(c: CheckerView) -> CheckerView {
    CheckerView { scopes: c.scopes.drop_last(), ..c }
}

/// An item after rewriting. The item gets a scope of its own, resolved
/// under the scope around it, which lasts while the item is rewritten.
/// Only where the engine was told to skip the first scope is the first
/// item rewritten under the scope that is there.
pub open spec fn folded_item_simple(c: CheckerView, item: ItemView) -> Result<
    (ItemView, CheckerView),
    CheckError,
>
    decreases item, 2nat,
{
    if c.skip_first {
        folded_item_inner(CheckerView { skip_first: false, ..c }, item)
    } else {
        match new_scope(c, item) {
            Err(e) => Err(e),
            Ok(scope) => match folded_item_inner(pushed(c, scope), item) {
                Ok((out, c1)) => Ok((out, popped(c1))),
                Err(e) => Err(e),
            },
        }
    }
}

/// What an item becomes: itself, rewritten, and behind it the items that
/// were pending when it was done, after which none is pending.
pub open spec fn folded_item(c: CheckerView, item: ItemView) -> Result<(Seq<ItemView>, CheckerView), CheckError>
    decreases item, 3nat,
{
    match folded_item_simple(c, item) {
        Ok((out, c1)) => Ok((seq![out] + c1.pending, CheckerView { pending: Seq::empty(), ..c1 })),
        Err(e) => Err(e),
    }
}

} // verus!
