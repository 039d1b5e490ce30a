//! Instrumentation only adds.
//!
//! A tree is erased by taking away what instrumentation adds: the markers
//! on aggregates and fields, the check statements, the hash
//! implementations; a body that was wrapped is unwrapped. Since
//! instrumentation also takes the inline directives off fields, erasure
//! takes them off too. The law of this module says that a rewritten item
//! erases to what the item itself erases to: nothing of the program was
//! changed or lost.

use vstd::prelude::*;
use crate::attr::is_cross_check;
use crate::rewrite::{
    CheckerView, after_foreign_item, after_foreign_items, aggregate_attrs, arg_check, arg_checks,
    built_check, c_hash_item, c_hash_state, chosen_marker, config_of, entry_extras, exit_extras,
    exported, extra_checks, field_choice, field_id, folded_block, folded_expr, folded_exprs,
    folded_field, folded_fields, folded_impl_item, folded_impl_items, folded_item,
    folded_item_inner, folded_item_simple, folded_items, folded_kind, folded_stmt, folded_stmts,
    folded_variant_data, folded_variants, foreign_hash, function_body, hash_attr_args, hasher_pair,
    inline_field_directive, item_stmts, kept_attrs, local_stmts, new_scope, opt_marker, opt_stmt,
    pushed, recorded, result_type, union_hash, with_field_idx, with_pending,
};
use crate::config::ScopeCheckView;
use crate::expander::{ExpanderView, dispatch, expanded, start_checker};
use crate::span::{SourceMapView, Span};
use crate::text::Text;
use crate::tree::{
    ArgView, AttributeView, BlockView, CheckTag, ExprKindView, ExprView, FnDeclView,
    ForeignItemView, ForeignKind, ItemKindView, ItemView, LocalView, MetaArgView, StmtView,
    StructFieldView, VariantDataView, VariantView,
};

verus! {

/// Whether an attribute is one that instrumentation adds.
pub open spec fn is_added_attr(a: AttributeView) -> bool {
    a is DeriveHash || a is HashConfig || a is FieldHash
}

/// Whether an item is one that instrumentation adds.
pub open spec fn is_added_item(item: ItemView) -> bool {
    item.kind is HashImpl || item.kind is HashExport
}

/// The attributes of an item without those that instrumentation adds.
pub open spec fn erased_attrs(attrs: Seq<AttributeView>) -> Seq<AttributeView>
    decreases attrs.len(),
{
    if attrs.len() == 0 {
        Seq::empty()
    } else if is_added_attr(attrs.last()) {
        erased_attrs(attrs.drop_last())
    } else {
        erased_attrs(attrs.drop_last()).push(attrs.last())
    }
}

/// The attributes of a field without those that instrumentation adds and
/// without its inline directives.
pub open spec fn erased_field_attrs(attrs: Seq<AttributeView>) -> Seq<AttributeView>
    decreases attrs.len(),
{
    if attrs.len() == 0 {
        Seq::empty()
    } else if is_added_attr(attrs.last()) || is_cross_check(attrs.last()) {
        erased_field_attrs(attrs.drop_last())
    } else {
        erased_field_attrs(attrs.drop_last()).push(attrs.last())
    }
}

/// A field, erased.
pub open spec fn erased_field(f: StructFieldView) -> StructFieldView {
    StructFieldView { ident: f.ident, attrs: erased_field_attrs(f.attrs), ty: f.ty }
}

/// The fields of a list, erased.
pub open spec fn erased_fields(fields: Seq<StructFieldView>) -> Seq<StructFieldView> {
    Seq::new(fields.len(), |i: int| erased_field(fields[i]))
}

/// The body of an aggregate, erased.
pub open spec fn erased_data(data: VariantDataView) -> VariantDataView {
    VariantDataView { fields: erased_fields(data.fields) }
}

/// The variants of a list, erased.
pub open spec fn erased_variants(variants: Seq<VariantView>) -> Seq<VariantView> {
    Seq::new(
        variants.len(),
        |i: int| VariantView { ident: variants[i].ident, data: erased_data(variants[i].data) },
    )
}

/// An expression, erased.
pub open spec fn erased_expr(e: ExprView) -> ExprView
    decreases e,
{
    ExprView {
        span: e.span,
        kind: match e.kind {
            ExprKindView::Compound(t, parts) => ExprKindView::Compound(t, erased_exprs(parts)),
            ExprKindView::Block(b) => ExprKindView::Block(erased_block(b)),
            other => other,
        },
    }
}

/// The expressions of a list, erased.
pub open spec fn erased_exprs(parts: Seq<ExprView>) -> Seq<ExprView>
    decreases parts,
{
    if parts.len() == 0 {
        Seq::empty()
    } else {
        erased_exprs(parts.drop_last()).push(erased_expr(parts.last()))
    }
}

/// A block, erased.
pub open spec fn erased_block(b: BlockView) -> BlockView
    decreases b,
{
    BlockView { stmts: erased_stmts(b.stmts) }
}

/// The statements of a list, erased.
pub open spec fn erased_stmts(stmts: Seq<StmtView>) -> Seq<StmtView>
    decreases stmts,
{
    if stmts.len() == 0 {
        Seq::empty()
    } else {
        erased_stmts(stmts.drop_last()) + erased_stmt(stmts.last())
    }
}

/// What is left of one statement: nothing of a statement that
/// instrumentation adds, the statements of the body where a body was
/// wrapped, else the statement with its parts erased.
pub open spec fn erased_stmt(s: StmtView) -> Seq<StmtView>
    decreases s,
{
    match s {
        StmtView::Local(l) => seq![
            StmtView::Local(
                LocalView {
                    span: l.span,
                    pat: l.pat,
                    attrs: l.attrs,
                    init: match l.init {
                        Some(e) => Some(erased_expr(e)),
                        None => None,
                    },
                },
            ),
        ],
        StmtView::Item(item) => item_stmts(erased_item(item)),
        StmtView::Expr(e) => seq![StmtView::Expr(erased_expr(e))],
        StmtView::Mac(_, _) => seq![s],
        StmtView::CallBody(_, b) => erased_stmts(b.stmts),
        _ => Seq::empty(),
    }
}

/// What is left of one item: nothing of an item that instrumentation
/// adds, else the item with its attributes and its content erased.
pub open spec fn erased_item(item: ItemView) -> Seq<ItemView>
    decreases item,
{
    if is_added_item(item) {
        Seq::empty()
    } else {
        seq![
            ItemView {
                ident: item.ident,
                attrs: erased_attrs(item.attrs),
                span: item.span,
                kind: erased_kind(item.kind),
            },
        ]
    }
}

/// The items of a list, erased.
pub open spec fn erased_items(items: Seq<ItemView>) -> Seq<ItemView>
    decreases items,
{
    if items.len() == 0 {
        Seq::empty()
    } else {
        erased_items(items.drop_last()) + erased_item(items.last())
    }
}

/// The content of an item, erased.
pub open spec fn erased_kind(kind: ItemKindView) -> ItemKindView
    decreases kind,
{
    match kind {
        ItemKindView::Fn(decl, body) => ItemKindView::Fn(decl, erased_block(body)),
        ItemKindView::Mod(inner, items) => ItemKindView::Mod(inner, erased_items(items)),
        ItemKindView::Struct(data) => ItemKindView::Struct(erased_data(data)),
        ItemKindView::Enum(variants) => ItemKindView::Enum(erased_variants(variants)),
        ItemKindView::Union(data) => ItemKindView::Union(erased_data(data)),
        ItemKindView::Impl(ty, items) => ItemKindView::Impl(ty, erased_items(items)),
        other => other,
    }
}

/// Whether every statement of a list is a check.
pub open spec fn all_checks(stmts: Seq<StmtView>) -> bool {
    forall|i: int| 0 <= i < stmts.len() ==> (#[trigger] stmts[i]) is Check
}

proof fn lemma_erased_stmts_add(a: Seq<StmtView>, b: Seq<StmtView>)
    ensures
        erased_stmts(a + b) == erased_stmts(a) + erased_stmts(b),
    decreases b.len(),
{
    if b.len() == 0 {
        assert(a + b =~= a);
        assert(erased_stmts(a) + erased_stmts(b) =~= erased_stmts(a));
    } else {
        assert((a + b).drop_last() =~= a + b.drop_last());
        assert((a + b).last() == b.last());
        lemma_erased_stmts_add(a, b.drop_last());
        assert(erased_stmts(a + b) =~= erased_stmts(a) + erased_stmts(b));
    }
}

proof fn lemma_erased_stmts_one(s: StmtView)
    ensures
        erased_stmts(seq![s]) == erased_stmt(s),
{
    let one = seq![s];
    assert(one.drop_last() =~= Seq::empty());
    assert(erased_stmts(one.drop_last()) =~= Seq::empty());
    assert(one.last() == s);
    assert(erased_stmts(one) =~= erased_stmt(s));
}

proof fn lemma_erased_checks(stmts: Seq<StmtView>)
    requires
        all_checks(stmts),
    ensures
        erased_stmts(stmts) == Seq::<StmtView>::empty(),
    decreases stmts.len(),
{
    if stmts.len() > 0 {
        assert(stmts.last() == stmts[stmts.len() - 1]);
        assert(all_checks(stmts.drop_last())) by {
            assert forall|i: int| 0 <= i < stmts.drop_last().len() implies (
            #[trigger] stmts.drop_last()[i]) is Check by {
                assert(stmts.drop_last()[i] == stmts[i]);
            }
        }
        lemma_erased_checks(stmts.drop_last());
        reveal_with_fuel(erased_stmt, 2);
        assert(erased_stmt(stmts.last()) =~= Seq::empty());
        assert(erased_stmts(stmts) =~= Seq::empty());
    }
}

proof fn lemma_erased_items_add(a: Seq<ItemView>, b: Seq<ItemView>)
    ensures
        erased_items(a + b) == erased_items(a) + erased_items(b),
    decreases b.len(),
{
    if b.len() == 0 {
        assert(a + b =~= a);
        assert(erased_items(a) + erased_items(b) =~= erased_items(a));
    } else {
        assert((a + b).drop_last() =~= a + b.drop_last());
        assert((a + b).last() == b.last());
        lemma_erased_items_add(a, b.drop_last());
        assert(erased_items(a + b) =~= erased_items(a) + erased_items(b));
    }
}

proof fn lemma_erased_items_one(item: ItemView)
    ensures
        erased_items(seq![item]) == erased_item(item),
{
    let one = seq![item];
    assert(one.drop_last() =~= Seq::empty());
    assert(erased_items(one.drop_last()) =~= Seq::empty());
    assert(one.last() == item);
    assert(erased_items(one) =~= erased_item(item));
}

proof fn lemma_erased_items_push(a: Seq<ItemView>, item: ItemView)
    ensures
        erased_items(a.push(item)) == erased_items(a) + erased_item(item),
{
    assert(a.push(item).drop_last() =~= a);
}

proof fn lemma_erased_exprs_add(a: Seq<ExprView>, b: Seq<ExprView>)
    ensures
        erased_exprs(a + b) == erased_exprs(a) + erased_exprs(b),
    decreases b.len(),
{
    if b.len() == 0 {
        assert(a + b =~= a);
        assert(erased_exprs(a) + erased_exprs(b) =~= erased_exprs(a));
    } else {
        assert((a + b).drop_last() =~= a + b.drop_last());
        assert((a + b).last() == b.last());
        lemma_erased_exprs_add(a, b.drop_last());
        assert(erased_exprs(a + b) =~= erased_exprs(a) + erased_exprs(b));
    }
}

proof fn lemma_erased_exprs_one(e: ExprView)
    ensures
        erased_exprs(seq![e]) == seq![erased_expr(e)],
{
    let one = seq![e];
    assert(one.drop_last() =~= Seq::empty());
    assert(erased_exprs(one.drop_last()) =~= Seq::empty());
    assert(one.last() == e);
    assert(erased_exprs(one) =~= seq![erased_expr(e)]);
}

proof fn lemma_erased_attrs_add(a: Seq<AttributeView>, b: Seq<AttributeView>)
    ensures
        erased_attrs(a + b) == erased_attrs(a) + erased_attrs(b),
        erased_field_attrs(a + b) == erased_field_attrs(a) + erased_field_attrs(b),
    decreases b.len(),
{
    if b.len() == 0 {
        assert(a + b =~= a);
        assert(erased_attrs(a) + erased_attrs(b) =~= erased_attrs(a));
        assert(erased_field_attrs(a) + erased_field_attrs(b) =~= erased_field_attrs(a));
    } else {
        assert((a + b).drop_last() =~= a + b.drop_last());
        assert((a + b).last() == b.last());
        lemma_erased_attrs_add(a, b.drop_last());
        assert(erased_attrs(a + b) =~= erased_attrs(a) + erased_attrs(b));
        assert(erased_field_attrs(a + b) =~= erased_field_attrs(a) + erased_field_attrs(b));
    }
}

proof fn lemma_erased_attrs_one(a: AttributeView)
    ensures
        erased_attrs(seq![a]) == (if is_added_attr(a) {
            Seq::<AttributeView>::empty()
        } else {
            seq![a]
        }),
        erased_field_attrs(seq![a]) == (if is_added_attr(a) || is_cross_check(a) {
            Seq::<AttributeView>::empty()
        } else {
            seq![a]
        }),
{
    let one = seq![a];
    assert(one.drop_last() =~= Seq::empty());
    assert(erased_attrs(one.drop_last()) =~= Seq::empty());
    assert(erased_field_attrs(one.drop_last()) =~= Seq::empty());
    assert(one.last() == a);
    if !is_added_attr(a) {
        assert(erased_attrs(one) =~= seq![a]);
        if !is_cross_check(a) {
            assert(erased_field_attrs(one) =~= seq![a]);
        }
    }
}

proof fn lemma_item_stmts_erased(items: Seq<ItemView>)
    ensures
        erased_stmts(item_stmts(items)) == item_stmts(erased_items(items)),
    decreases items.len(),
{
    if items.len() == 0 {
        assert(item_stmts(items) =~= Seq::empty());
        assert(item_stmts(erased_items(items)) =~= Seq::empty());
    } else {
        let front = items.drop_last();
        let last = items.last();
        lemma_item_stmts_erased(front);
        reveal_with_fuel(erased_stmt, 2);
        assert(item_stmts(items).drop_last() =~= item_stmts(front));
        assert(item_stmts(items).last() == StmtView::Item(last));
        assert(erased_stmt(StmtView::Item(last)) == item_stmts(erased_item(last)));
        assert(item_stmts(erased_items(front) + erased_item(last)) =~= item_stmts(
            erased_items(front),
        ) + item_stmts(erased_item(last)));
    }
}

proof fn lemma_arg_checks(cfg: ScopeCheckView, inputs: Seq<ArgView>, i: int, acc: Seq<StmtView>)
    requires
        all_checks(acc),
        arg_checks(cfg, inputs, i, acc) is Ok,
    ensures
        all_checks(arg_checks(cfg, inputs, i, acc)->Ok_0),
    decreases inputs.len() - i,
{
    if 0 <= i < inputs.len() {
        let c = arg_check(cfg, inputs[i])->Ok_0;
        let next = acc + opt_stmt(c);
        assert(all_checks(next)) by {
            assert forall|k: int| 0 <= k < next.len() implies (#[trigger] next[k]) is Check by {
                if k < acc.len() {
                    assert(next[k] == acc[k]);
                } else {
                    assert(next[k] == opt_stmt(c)[k - acc.len()]);
                }
            }
        }
        lemma_arg_checks(cfg, inputs, i + 1, next);
    }
}

proof fn lemma_function_body(
    cfg: ScopeCheckView,
    pair: (Text, Text),
    ident: Text,
    decl: FnDeclView,
    block: BlockView,
)
    requires
        function_body(cfg, pair, ident, decl, block) is Ok,
    ensures
        erased_stmts(function_body(cfg, pair, ident, decl, block)->Ok_0.stmts) == erased_stmts(
            block.stmts,
        ),
{
    let out = function_body(cfg, pair, ident, decl, block)->Ok_0.stmts;
    let aliases = seq![StmtView::HasherAliases(pair.0, pair.1)];
    lemma_erased_stmts_one(StmtView::HasherAliases(pair.0, pair.1));
    if !cfg.inherited.enabled {
        lemma_erased_stmts_add(aliases, block.stmts);
        assert(erased_stmts(out) =~= erased_stmts(block.stmts));
    } else {
        let entry = opt_stmt(
            built_check(
                cfg.inherited.entry,
                CheckTag::FunctionEntry,
                ident,
                false,
            )->Ok_0,
        );
        let exit = opt_stmt(
            built_check(
                cfg.inherited.exit,
                CheckTag::FunctionExit,
                ident,
                false,
            )->Ok_0,
        );
        let ret = opt_stmt(
            built_check(
                cfg.inherited.ret,
                CheckTag::FunctionReturn,
                ident,
                true,
            )->Ok_0,
        );
        let args = arg_checks(cfg, decl.inputs, 0, Seq::empty())->Ok_0;
        let extra_in = extra_checks(
            ident,
            CheckTag::FunctionEntry,
            entry_extras(cfg),
        );
        let extra_out = extra_checks(
            ident,
            CheckTag::FunctionExit,
            exit_extras(cfg),
        );
        let body = seq![StmtView::CallBody(result_type(decl), block)];
        let last = seq![StmtView::YieldResult];
        lemma_arg_checks(cfg, decl.inputs, 0, Seq::empty());
        lemma_erased_checks(entry);
        lemma_erased_checks(exit);
        lemma_erased_checks(ret);
        lemma_erased_checks(args);
        lemma_erased_checks(extra_in);
        lemma_erased_checks(extra_out);
        lemma_erased_stmts_one(StmtView::CallBody(result_type(decl), block));
        lemma_erased_stmts_one(StmtView::YieldResult);
        let s1 = aliases + entry;
        let s2 = s1 + args;
        let s3 = s2 + extra_in;
        let s4 = s3 + body;
        let s5 = s4 + exit;
        let s6 = s5 + ret;
        let s7 = s6 + extra_out;
        lemma_erased_stmts_add(aliases, entry);
        lemma_erased_stmts_add(s1, args);
        lemma_erased_stmts_add(s2, extra_in);
        lemma_erased_stmts_add(s3, body);
        lemma_erased_stmts_add(s4, exit);
        lemma_erased_stmts_add(s5, ret);
        lemma_erased_stmts_add(s6, extra_out);
        lemma_erased_stmts_add(s7, last);
        assert(out == s7 + last);
        assert(erased_stmts(out) =~= erased_stmts(block.stmts));
    }
}

/// Whether the items that the engine holds pending are all items that
/// instrumentation adds.
pub open spec fn pending_is_added(c: CheckerView) -> bool {
    erased_items(c.pending) == Seq::<ItemView>::empty()
}

proof fn lemma_pending_push(c: CheckerView, item: ItemView)
    requires
        pending_is_added(c),
        is_added_item(item),
    ensures
        pending_is_added(with_pending(c, item)),
{
    lemma_erased_items_push(c.pending, item);
    assert(erased_items(c.pending) + erased_item(item) =~= Seq::empty());
}

proof fn lemma_pending_exported(c: CheckerView, ty: Text, span: Span)
    requires
        pending_is_added(c),
    ensures
        pending_is_added(exported(c, ty, span)),
{
    if c.export {
        match c_hash_item(c, ty, span) {
            Some(item) => {
                lemma_pending_push(c_hash_state(c, ty), item);
            },
            None => {},
        }
    }
}

proof fn lemma_kept_attrs_erased(attrs: Seq<AttributeView>, i: int, acc: Seq<AttributeView>)
    requires
        0 <= i <= attrs.len(),
    ensures
        erased_field_attrs(kept_attrs(attrs, i, acc)) == erased_field_attrs(acc)
            + erased_field_attrs(attrs.subrange(i, attrs.len() as int)),
    decreases attrs.len() - i,
{
    let rest = attrs.subrange(i, attrs.len() as int);
    if i < attrs.len() {
        let tail = attrs.subrange(i + 1, attrs.len() as int);
        assert(rest =~= seq![attrs[i]] + tail);
        lemma_erased_attrs_add(seq![attrs[i]], tail);
        lemma_erased_attrs_one(attrs[i]);
        if is_cross_check(attrs[i]) {
            lemma_kept_attrs_erased(attrs, i + 1, acc);
            assert(erased_field_attrs(rest) =~= erased_field_attrs(tail));
        } else {
            lemma_kept_attrs_erased(attrs, i + 1, acc.push(attrs[i]));
            assert(acc.push(attrs[i]) =~= acc + seq![attrs[i]]);
            lemma_erased_attrs_add(acc, seq![attrs[i]]);
            assert(erased_field_attrs(acc.push(attrs[i])) + erased_field_attrs(tail)
                =~= erased_field_attrs(acc) + erased_field_attrs(rest));
        }
    } else {
        assert(rest =~= Seq::empty());
        assert(erased_field_attrs(acc) + erased_field_attrs(rest) =~= erased_field_attrs(acc));
    }
}

proof fn lemma_field_erased(c: CheckerView, f: StructFieldView)
    requires
        folded_field(c, f) is Ok,
    ensures
        erased_field(folded_field(c, f)->Ok_0.0) == erased_field(f),
        folded_field(c, f)->Ok_0.1.pending == c.pending,
{
    let out = folded_field(c, f)->Ok_0.0;
    let kept = kept_attrs(f.attrs, 0, Seq::empty());
    let inline = inline_field_directive(f.attrs)->Ok_0;
    let m = chosen_marker(
        field_choice(config_of(c), field_id(c, f), inline),
    )->Ok_0;
    assert(out.attrs == kept + opt_marker(m));
    lemma_kept_attrs_erased(f.attrs, 0, Seq::empty());
    assert(f.attrs.subrange(0, f.attrs.len() as int) =~= f.attrs);
    lemma_erased_attrs_add(kept, opt_marker(m));
    match m {
        Some(marker) => {
            lemma_erased_attrs_one(AttributeView::FieldHash(marker));
        },
        None => {},
    }
    assert(erased_field_attrs(out.attrs) =~= erased_field_attrs(f.attrs));
}

proof fn lemma_fields_erased(
    c: CheckerView,
    fields: Seq<StructFieldView>,
    i: int,
    acc: Seq<StructFieldView>,
)
    requires
        0 <= i <= fields.len(),
        folded_fields(c, fields, i, acc) is Ok,
    ensures
        erased_fields(folded_fields(c, fields, i, acc)->Ok_0.0) == erased_fields(acc)
            + erased_fields(fields.subrange(i, fields.len() as int)),
        folded_fields(c, fields, i, acc)->Ok_0.1.pending == c.pending,
    decreases fields.len() - i,
{
    let rest = fields.subrange(i, fields.len() as int);
    let out = folded_fields(c, fields, i, acc)->Ok_0.0;
    if i < fields.len() {
        let step = folded_field(c, fields[i]);
        lemma_field_erased(c, fields[i]);
        lemma_fields_erased(step->Ok_0.1, fields, i + 1, acc.push(step->Ok_0.0));
        let tail = fields.subrange(i + 1, fields.len() as int);
        assert(erased_fields(acc.push(step->Ok_0.0)) + erased_fields(tail) =~= erased_fields(acc)
            + erased_fields(rest));
    } else {
        assert(erased_fields(acc) + erased_fields(rest) =~= erased_fields(acc));
    }
}

proof fn lemma_variant_data_erased(c: CheckerView, data: VariantDataView)
    requires
        folded_variant_data(c, data) is Ok,
    ensures
        erased_data(folded_variant_data(c, data)->Ok_0.0) == erased_data(data),
        folded_variant_data(c, data)->Ok_0.1.pending == c.pending,
{
    lemma_fields_erased(with_field_idx(c, 0), data.fields, 0, Seq::empty());
    assert(data.fields.subrange(0, data.fields.len() as int) =~= data.fields);
    assert(erased_fields(Seq::empty()) + erased_fields(data.fields) =~= erased_fields(data.fields));
}

proof fn lemma_variants_erased(c: CheckerView, variants: Seq<VariantView>, i: int, acc: Seq<VariantView>)
    requires
        0 <= i <= variants.len(),
        folded_variants(c, variants, i, acc) is Ok,
    ensures
        erased_variants(folded_variants(c, variants, i, acc)->Ok_0.0) == erased_variants(acc)
            + erased_variants(variants.subrange(i, variants.len() as int)),
        folded_variants(c, variants, i, acc)->Ok_0.1.pending == c.pending,
    decreases variants.len() - i,
{
    let rest = variants.subrange(i, variants.len() as int);
    if i < variants.len() {
        let step = folded_variant_data(c, variants[i].data);
        lemma_variant_data_erased(c, variants[i].data);
        let v = VariantView { ident: variants[i].ident, data: step->Ok_0.0 };
        lemma_variants_erased(step->Ok_0.1, variants, i + 1, acc.push(v));
        let tail = variants.subrange(i + 1, variants.len() as int);
        assert(erased_variants(acc.push(v)) + erased_variants(tail) =~= erased_variants(acc)
            + erased_variants(rest));
    } else {
        assert(erased_variants(acc) + erased_variants(rest) =~= erased_variants(acc));
    }
}

proof fn lemma_foreign_items_pending(c: CheckerView, items: Seq<ForeignItemView>, i: int)
    requires
        pending_is_added(c),
    ensures
        pending_is_added(after_foreign_items(c, items, i)),
    decreases items.len() - i,
{
    if 0 <= i < items.len() {
        if items[i].kind == ForeignKind::Type {
            lemma_pending_push(c, foreign_hash(items[i]));
        }
        lemma_foreign_items_pending(after_foreign_item(c, items[i]), items, i + 1);
    }
}

proof fn lemma_expr_erased(c: CheckerView, e: ExprView)
    requires
        pending_is_added(c),
        folded_expr(c, e) is Ok,
    ensures
        erased_expr(folded_expr(c, e)->Ok_0.0) == erased_expr(e),
        pending_is_added(folded_expr(c, e)->Ok_0.1),
    decreases e, 0nat,
{
    let c1 = recorded(c, e.span);
    match e.kind {
        ExprKindView::Compound(t, parts) => {
            lemma_exprs_erased(c1, parts, 0, Seq::empty());
            assert(parts.subrange(0, parts.len() as int) =~= parts);
            assert(erased_exprs(Seq::empty()) + erased_exprs(parts) =~= erased_exprs(parts));
        },
        ExprKindView::Block(b) => {
            lemma_block_erased(c1, b);
        },
        _ => {},
    }
}

proof fn lemma_exprs_erased(c: CheckerView, parts: Seq<ExprView>, i: int, acc: Seq<ExprView>)
    requires
        pending_is_added(c),
        0 <= i <= parts.len(),
        folded_exprs(c, parts, i, acc) is Ok,
    ensures
        erased_exprs(folded_exprs(c, parts, i, acc)->Ok_0.0) == erased_exprs(acc) + erased_exprs(
            parts.subrange(i, parts.len() as int),
        ),
        pending_is_added(folded_exprs(c, parts, i, acc)->Ok_0.1),
    decreases parts, parts.len() - i,
{
    let rest = parts.subrange(i, parts.len() as int);
    if i < parts.len() {
        let step = folded_expr(c, parts[i]);
        lemma_expr_erased(c, parts[i]);
        lemma_exprs_erased(step->Ok_0.1, parts, i + 1, acc.push(step->Ok_0.0));
        let tail = parts.subrange(i + 1, parts.len() as int);
        assert(rest =~= seq![parts[i]] + tail);
        lemma_erased_exprs_add(seq![parts[i]], tail);
        lemma_erased_exprs_one(parts[i]);
        assert(acc.push(step->Ok_0.0) =~= acc + seq![step->Ok_0.0]);
        lemma_erased_exprs_add(acc, seq![step->Ok_0.0]);
        lemma_erased_exprs_one(step->Ok_0.0);
        assert(erased_exprs(acc.push(step->Ok_0.0)) + erased_exprs(tail) =~= erased_exprs(acc)
            + erased_exprs(rest));
    } else {
        assert(rest =~= Seq::empty());
        assert(erased_exprs(acc) + erased_exprs(rest) =~= erased_exprs(acc));
    }
}

proof fn lemma_block_erased(c: CheckerView, b: BlockView)
    requires
        pending_is_added(c),
        folded_block(c, b) is Ok,
    ensures
        erased_block(folded_block(c, b)->Ok_0.0) == erased_block(b),
        pending_is_added(folded_block(c, b)->Ok_0.1),
    decreases b, 0nat,
{
    lemma_stmts_erased(c, b.stmts, 0, Seq::empty());
    assert(b.stmts.subrange(0, b.stmts.len() as int) =~= b.stmts);
    assert(erased_stmts(Seq::empty()) + erased_stmts(b.stmts) =~= erased_stmts(b.stmts));
}

proof fn lemma_stmts_erased(c: CheckerView, stmts: Seq<StmtView>, i: int, acc: Seq<StmtView>)
    requires
        pending_is_added(c),
        0 <= i <= stmts.len(),
        folded_stmts(c, stmts, i, acc) is Ok,
    ensures
        erased_stmts(folded_stmts(c, stmts, i, acc)->Ok_0.0) == erased_stmts(acc) + erased_stmts(
            stmts.subrange(i, stmts.len() as int),
        ),
        pending_is_added(folded_stmts(c, stmts, i, acc)->Ok_0.1),
    decreases stmts, stmts.len() - i,
{
    let rest = stmts.subrange(i, stmts.len() as int);
    if i < stmts.len() {
        let step = folded_stmt(c, stmts[i]);
        lemma_stmt_erased(c, stmts[i]);
        lemma_stmts_erased(step->Ok_0.1, stmts, i + 1, acc + step->Ok_0.0);
        let tail = stmts.subrange(i + 1, stmts.len() as int);
        assert(rest =~= seq![stmts[i]] + tail);
        lemma_erased_stmts_add(seq![stmts[i]], tail);
        lemma_erased_stmts_one(stmts[i]);
        lemma_erased_stmts_add(acc, step->Ok_0.0);
        assert(erased_stmts(acc + step->Ok_0.0) + erased_stmts(tail) =~= erased_stmts(acc)
            + erased_stmts(rest));
    } else {
        assert(rest =~= Seq::empty());
        assert(erased_stmts(acc) + erased_stmts(rest) =~= erased_stmts(acc));
    }
}

proof fn lemma_local_stmts_erased(l: LocalView)
    requires
        local_stmts(l) is Ok,
    ensures
        erased_stmts(local_stmts(l)->Ok_0) == erased_stmt(StmtView::Local(l)),
{
    reveal_with_fuel(erased_stmt, 2);
    let out = local_stmts(l)->Ok_0;
    lemma_erased_stmts_one(StmtView::Local(l));
    if out.len() == 2 {
        let check = out[1];
        assert(out =~= seq![StmtView::Local(l)] + seq![check]);
        lemma_erased_stmts_add(seq![StmtView::Local(l)], seq![check]);
        lemma_erased_stmts_one(check);
        assert(erased_stmt(check) =~= Seq::empty());
        assert(erased_stmts(out) =~= erased_stmt(StmtView::Local(l)));
    } else {
        assert(out =~= seq![StmtView::Local(l)]);
    }
}

proof fn lemma_stmt_erased(c: CheckerView, s: StmtView)
    requires
        pending_is_added(c),
        folded_stmt(c, s) is Ok,
    ensures
        erased_stmts(folded_stmt(c, s)->Ok_0.0) == erased_stmt(s),
        pending_is_added(folded_stmt(c, s)->Ok_0.1),
    decreases s, 0nat,
{
    reveal_with_fuel(erased_stmt, 2);
    match s {
        StmtView::Local(l) => {
            let c1 = recorded(c, l.span);
            match l.init {
                Some(e) => {
                    lemma_expr_erased(c1, e);
                    let e2 = folded_expr(c1, e)->Ok_0.0;
                    let l2 = LocalView { span: l.span, pat: l.pat, attrs: l.attrs, init: Some(e2) };
                    lemma_local_stmts_erased(l2);
                    assert(erased_stmt(StmtView::Local(l2)) == erased_stmt(s));
                },
                None => {
                    lemma_local_stmts_erased(l);
                },
            }
        },
        StmtView::Item(item) => {
            let c1 = recorded(c, item.span);
            lemma_item_erased(c1, item);
            let items = folded_item(c1, item)->Ok_0.0;
            lemma_item_stmts_erased(items);
        },
        StmtView::Expr(e) => {
            let c1 = recorded(c, e.span);
            lemma_expr_erased(c1, e);
            let e2 = folded_expr(c1, e)->Ok_0.0;
            lemma_erased_stmts_one(StmtView::Expr(e2));
        },
        _ => {
            lemma_erased_stmts_one(s);
        },
    }
}

proof fn lemma_items_erased(c: CheckerView, items: Seq<ItemView>, i: int, acc: Seq<ItemView>)
    requires
        pending_is_added(c),
        0 <= i <= items.len(),
        folded_items(c, items, i, acc) is Ok,
    ensures
        erased_items(folded_items(c, items, i, acc)->Ok_0.0) == erased_items(acc) + erased_items(
            items.subrange(i, items.len() as int),
        ),
        pending_is_added(folded_items(c, items, i, acc)->Ok_0.1),
    decreases items, items.len() - i,
{
    let rest = items.subrange(i, items.len() as int);
    if i < items.len() {
        let step = folded_item(c, items[i]);
        lemma_item_erased(c, items[i]);
        lemma_items_erased(step->Ok_0.1, items, i + 1, acc + step->Ok_0.0);
        let tail = items.subrange(i + 1, items.len() as int);
        assert(rest =~= seq![items[i]] + tail);
        lemma_erased_items_add(seq![items[i]], tail);
        lemma_erased_items_one(items[i]);
        lemma_erased_items_add(acc, step->Ok_0.0);
        assert(erased_items(acc + step->Ok_0.0) + erased_items(tail) =~= erased_items(acc)
            + erased_items(rest));
    } else {
        assert(rest =~= Seq::empty());
        assert(erased_items(acc) + erased_items(rest) =~= erased_items(acc));
    }
}

proof fn lemma_impl_item_erased(c: CheckerView, item: ItemView)
    requires
        pending_is_added(c),
        folded_impl_item(c, item) is Ok,
    ensures
        erased_item(folded_impl_item(c, item)->Ok_0.0) == erased_item(item),
        pending_is_added(folded_impl_item(c, item)->Ok_0.1),
    decreases item, 3nat,
{
    if item.kind is Fn {
        lemma_item_simple_erased(c, item);
    }
}

proof fn lemma_impl_items_erased(c: CheckerView, items: Seq<ItemView>, i: int, acc: Seq<ItemView>)
    requires
        pending_is_added(c),
        0 <= i <= items.len(),
        folded_impl_items(c, items, i, acc) is Ok,
    ensures
        erased_items(folded_impl_items(c, items, i, acc)->Ok_0.0) == erased_items(acc)
            + erased_items(items.subrange(i, items.len() as int)),
        pending_is_added(folded_impl_items(c, items, i, acc)->Ok_0.1),
    decreases items, items.len() - i,
{
    let rest = items.subrange(i, items.len() as int);
    if i < items.len() {
        let step = folded_impl_item(c, items[i]);
        lemma_impl_item_erased(c, items[i]);
        lemma_impl_items_erased(step->Ok_0.1, items, i + 1, acc.push(step->Ok_0.0));
        let tail = items.subrange(i + 1, items.len() as int);
        assert(rest =~= seq![items[i]] + tail);
        lemma_erased_items_add(seq![items[i]], tail);
        lemma_erased_items_one(items[i]);
        lemma_erased_items_push(acc, step->Ok_0.0);
        assert(erased_items(acc.push(step->Ok_0.0)) + erased_items(tail) =~= erased_items(acc)
            + erased_items(rest));
    } else {
        assert(rest =~= Seq::empty());
        assert(erased_items(acc) + erased_items(rest) =~= erased_items(acc));
    }
}

proof fn lemma_kind_erased(c: CheckerView, kind: ItemKindView)
    requires
        pending_is_added(c),
        folded_kind(c, kind) is Ok,
    ensures
        erased_kind(folded_kind(c, kind)->Ok_0.0) == erased_kind(kind),
        pending_is_added(folded_kind(c, kind)->Ok_0.1),
    decreases kind, 0nat,
{
    match kind {
        ItemKindView::Fn(_, body) => {
            lemma_block_erased(c, body);
        },
        ItemKindView::Mod(_, items) => {
            lemma_items_erased(c, items, 0, Seq::empty());
            assert(items.subrange(0, items.len() as int) =~= items);
            assert(erased_items(Seq::empty()) + erased_items(items) =~= erased_items(items));
        },
        ItemKindView::Struct(data) => {
            lemma_variant_data_erased(c, data);
        },
        ItemKindView::Enum(variants) => {
            lemma_variants_erased(c, variants, 0, Seq::empty());
            assert(variants.subrange(0, variants.len() as int) =~= variants);
            assert(erased_variants(Seq::empty()) + erased_variants(variants) =~= erased_variants(
                variants,
            ));
        },
        ItemKindView::Union(data) => {
            lemma_variant_data_erased(c, data);
        },
        ItemKindView::Impl(_, items) => {
            lemma_impl_items_erased(c, items, 0, Seq::empty());
            assert(items.subrange(0, items.len() as int) =~= items);
            assert(erased_items(Seq::empty()) + erased_items(items) =~= erased_items(items));
        },
        ItemKindView::ForeignMod(items) => {
            lemma_foreign_items_pending(c, items, 0);
        },
        _ => {},
    }
}

proof fn lemma_aggregate_attrs_erased(cfg: ScopeCheckView, attrs: Seq<AttributeView>)
    ensures
        erased_attrs(aggregate_attrs(cfg, attrs)) == erased_attrs(attrs),
{
    let out = aggregate_attrs(cfg, attrs);
    if cfg.inherited.enabled {
        let derive = seq![AttributeView::DeriveHash];
        lemma_erased_attrs_one(AttributeView::DeriveHash);
        lemma_erased_attrs_add(attrs, derive);
        if hash_attr_args(cfg).len() > 0 {
            let config = AttributeView::HashConfig(hash_attr_args(cfg));
            lemma_erased_attrs_one(config);
            assert(out =~= (attrs + derive) + seq![config]);
            lemma_erased_attrs_add(attrs + derive, seq![config]);
        }
        assert(erased_attrs(out) =~= erased_attrs(attrs));
    }
}

proof fn lemma_item_inner_erased(c: CheckerView, item: ItemView)
    requires
        pending_is_added(c),
        folded_item_inner(c, item) is Ok,
    ensures
        erased_item(folded_item_inner(c, item)->Ok_0.0) == erased_item(item),
        pending_is_added(folded_item_inner(c, item)->Ok_0.1),
    decreases item, 1nat,
{
    let step = folded_kind(c, item.kind);
    let c1 = step->Ok_0.1;
    let kind = step->Ok_0.0;
    lemma_kind_erased(c, item.kind);
    match kind {
        ItemKindView::Fn(decl, body) => {
            lemma_function_body(config_of(c1), hasher_pair(c1), item.ident, decl, body);
        },
        ItemKindView::Union(_) => {
            let hash = union_hash(config_of(c1), item.ident, item.span);
            lemma_pending_push(c1, hash);
            lemma_pending_exported(with_pending(c1, hash), item.ident, item.span);
        },
        ItemKindView::Struct(_) | ItemKindView::Enum(_) => {
            lemma_aggregate_attrs_erased(config_of(c1), item.attrs);
            lemma_pending_exported(c1, item.ident, item.span);
        },
        _ => {},
    }
}

proof fn lemma_item_simple_erased(c: CheckerView, item: ItemView)
    requires
        pending_is_added(c),
        folded_item_simple(c, item) is Ok,
    ensures
        erased_item(folded_item_simple(c, item)->Ok_0.0) == erased_item(item),
        pending_is_added(folded_item_simple(c, item)->Ok_0.1),
    decreases item, 2nat,
{
    if c.skip_first {
        lemma_item_inner_erased(CheckerView { skip_first: false, ..c }, item);
    } else {
        lemma_item_inner_erased(pushed(c, new_scope(c, item)->Ok_0), item);
    }
}

proof fn lemma_item_erased(c: CheckerView, item: ItemView)
    requires
        pending_is_added(c),
        folded_item(c, item) is Ok,
    ensures
        erased_items(folded_item(c, item)->Ok_0.0) == erased_item(item),
        pending_is_added(folded_item(c, item)->Ok_0.1),
    decreases item, 3nat,
{
    lemma_item_simple_erased(c, item);
    let step = folded_item_simple(c, item)->Ok_0;
    lemma_erased_items_add(seq![step.0], step.1.pending);
    lemma_erased_items_one(step.0);
    assert(erased_item(step.0) + erased_items(step.1.pending) =~= erased_item(item));
}

/// Instrumentation only adds. What an item becomes erases to what the
/// item itself erases to: taking away the markers, the checks and the hash
/// implementations, and unwrapping the bodies, gives back the item as it
/// was, but for the inline directives on its fields. This holds of an
/// engine that holds nothing pending but what instrumentation added, as
/// an engine does that was newly made.
pub proof fn law_only_adds(c: CheckerView, item: ItemView)
    requires
        pending_is_added(c),
        folded_item(c, item) is Ok,
    ensures
        erased_items(folded_item(c, item)->Ok_0.0) == erased_item(item),
{
    lemma_item_erased(c, item);
}

/// What a directive on an item yields erases to what the item erases to.
pub proof fn law_expansion_only_adds(
    x: ExpanderView,
    map: SourceMapView,
    sp: Span,
    mi: MetaArgView,
    item: ItemView,
)
    requires
        expanded(x, map, sp, mi, item) is Ok,
    ensures
        erased_items(expanded(x, map, sp, mi, item)->Ok_0.0) == erased_item(item),
{
    match dispatch(x, map, sp, mi, item) {
        Ok(Some((config, skip_first))) => {
            lemma_item_erased(start_checker(x, map, sp, config, skip_first), item);
        },
        _ => {
            lemma_erased_items_one(item);
        },
    }
}

} // verus!
