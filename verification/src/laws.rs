//! What holds of the library as a whole, proved from the definitions that
//! the contracts of its functions use.

use vstd::prelude::*;
use crate::config::SettingsView;
use crate::directive::FieldIdView;
use crate::external::{FileConfigView, ItemEntryView, file_index, file_items, with_file};
use crate::expander::{ExpanderView, dispatch, expanded, start_checker};
use crate::rewrite::{
    CheckerView, after_field, after_foreign_item, after_foreign_items, baseline, c_hash_item,
    c_hash_name, c_hash_state, config_name, config_of, entry_settings, exported, field_id,
    file_span, folded_block, folded_expr, folded_exprs, folded_field, folded_fields,
    folded_impl_item, folded_impl_items, folded_item, folded_item_inner, folded_item_simple,
    folded_items, folded_kind, folded_stmt, folded_stmts, folded_variant_data, folded_variants,
    foreign_hash, inline_settings, new_scope, popped, pushed, recorded, union_hash, with_field_idx,
    with_pending,
};
use crate::scope::{ScopeView, scope_entry};
use crate::span::{
    SourceMapView, Span, SpanScopeView, call_site_of, file_name_of, found_scope, recorded_at,
};
use crate::text::Text;
use crate::tree::{
    BlockView, Item, ExprKindView, ExprView, ForeignItemView, ForeignKind, ItemKindView, ItemView,
    MetaArgView, StmtView, StructFieldView, VariantDataView, VariantView,
};

verus! {

/// The value of a setting that two sources may override: the external one
/// where it is given, else the inline one where it is given, else the
/// inherited one.
pub open spec fn effective<T>(inherited: T, inline: Option<T>, external: Option<T>) -> T {
    match external {
        Some(v) => v,
        None => match inline {
            Some(v) => v,
            None => inherited,
        },
    }
}

/// The enabled flag that a source gives, if it gives one.
pub open spec fn given_enabled(s: Option<SettingsView>) -> Option<bool> {
    match s {
        Some(s) => s.enabled,
        None => None,
    }
}

/// The aggregate hasher that a source gives, if it gives one.
pub open spec fn given_ahasher(s: Option<SettingsView>) -> Option<Option<Text>> {
    match s {
        Some(s) => match s.ahasher {
            Some(h) => Some(Some(h)),
            None => None,
        },
        None => None,
    }
}

/// The simple hasher that a source gives, if it gives one.
pub open spec fn given_shasher(s: Option<SettingsView>) -> Option<Option<Text>> {
    match s {
        Some(s) => match s.shasher {
            Some(h) => Some(Some(h)),
            None => None,
        },
        None => None,
    }
}

/// The enabled flag and the hashers of a scope are those of its parent
/// unless the item's inline directive or its external entry overrides
/// them; where both do, the external entry wins.
///
/// This holds of an item that stays in the file of its parent, and of one
/// in a file of which the external configuration knows nothing. An item
/// in another file that is configured starts from that file's defaults
/// instead.
pub proof fn law_scope_inherits(c: CheckerView, item: ItemView)
    requires
        c.scopes.len() > 0,
        new_scope(c, item) is Ok,
        c.scopes.last().file_name == file_name_of(c.map, file_span(item)) || file_items(
            c.external,
            file_name_of(c.map, file_span(item)),
        ) is None,
    ensures
        ({
            let parent = config_of(c).inherited;
            let scope = new_scope(c, item)->Ok_0.check_config.inherited;
            let inline = inline_settings(item.attrs)->Ok_0;
            let external = entry_settings(scope_entry(c.scopes.last(), config_name(item)));
            &&& scope.enabled == effective(
                parent.enabled,
                given_enabled(inline),
                given_enabled(external),
            )
            &&& scope.ahasher == effective(
                parent.ahasher,
                given_ahasher(inline),
                given_ahasher(external),
            )
            &&& scope.shasher == effective(
                parent.shasher,
                given_shasher(inline),
                given_shasher(external),
            )
        }),
{
    let file = file_name_of(c.map, file_span(item));
    assert(baseline(c, file) == config_of(c).inherited);
}

/// Whether every field of a list is without a name.
pub open spec fn all_unnamed(fields: Seq<StructFieldView>) -> bool {
    forall|i: int| 0 <= i < fields.len() ==> (#[trigger] fields[i]).ident.is_none()
}

/// The identities that the fields of a list get, from field `i` on, when
/// the engine passes them in order.
pub open spec fn field_ids(c: CheckerView, fields: Seq<StructFieldView>, i: int) -> Seq<FieldIdView>
    decreases fields.len() - i,
{
    if i < 0 || i >= fields.len() {
        Seq::empty()
    } else {
        seq![field_id(c, fields[i])] + field_ids(after_field(c, fields[i]), fields, i + 1)
    }
}

proof fn lemma_field_ids(c: CheckerView, fields: Seq<StructFieldView>, i: int)
    requires
        c.scopes.len() > 0,
        all_unnamed(fields),
        0 <= i <= fields.len() <= usize::MAX,
        c.scopes.last().field_idx == i,
    ensures
        field_ids(c, fields, i) == Seq::new(
            (fields.len() - i) as nat,
            |k: int| FieldIdView::Index((i + k) as usize),
        ),
    decreases fields.len() - i,
{
    let want = Seq::new((fields.len() - i) as nat, |k: int| FieldIdView::Index((i + k) as usize));
    if i < fields.len() {
        let c1 = after_field(c, fields[i]);
        assert(fields[i].ident.is_none());
        assert(c1.scopes.last().field_idx == i + 1);
        lemma_field_ids(c1, fields, i + 1);
        assert(field_ids(c, fields, i) =~= want);
    } else {
        assert(field_ids(c, fields, i) =~= want);
    }
}

proof fn lemma_cursor_after(
    c: CheckerView,
    fields: Seq<StructFieldView>,
    i: int,
    acc: Seq<StructFieldView>,
)
    requires
        c.scopes.len() > 0,
        all_unnamed(fields),
        0 <= i <= fields.len() <= usize::MAX,
        c.scopes.last().field_idx == i,
        folded_fields(c, fields, i, acc) is Ok,
    ensures
        folded_fields(c, fields, i, acc)->Ok_0.1.scopes.last().field_idx == fields.len(),
        folded_fields(c, fields, i, acc)->Ok_0.1.scopes.len() == c.scopes.len(),
    decreases fields.len() - i,
{
    if i < fields.len() {
        assert(fields[i].ident.is_none());
        let step = folded_field(c, fields[i]);
        assert(step is Ok);
        let c1 = step->Ok_0.1;
        assert(c1 == after_field(c, fields[i]));
        lemma_cursor_after(c1, fields, i + 1, acc.push(step->Ok_0.0));
    }
}

/// The fields without a name of one aggregate are identified by the
/// positions 0, 1, 2 and so on, in the order in which they are declared,
/// whatever the cursor showed when the aggregate began: the count starts
/// anew with every aggregate. Afterwards the cursor shows their number.
pub proof fn law_field_positions(c: CheckerView, data: VariantDataView)
    requires
        c.scopes.len() > 0,
        all_unnamed(data.fields),
        data.fields.len() <= usize::MAX,
    ensures
        field_ids(with_field_idx(c, 0), data.fields, 0) == Seq::new(
            data.fields.len(),
            |k: int| FieldIdView::Index(k as usize),
        ),
        folded_variant_data(c, data) matches Ok((_, after)) ==> after.scopes.last().field_idx
            == data.fields.len(),
{
    let start = with_field_idx(c, 0);
    lemma_field_ids(start, data.fields, 0);
    assert(Seq::new(
        (data.fields.len() - 0) as nat,
        |k: int| FieldIdView::Index((0 + k) as usize),
    ) =~= Seq::new(data.fields.len(), |k: int| FieldIdView::Index(k as usize)));
    if folded_variant_data(c, data) is Ok {
        lemma_cursor_after(start, data.fields, 0, Seq::empty());
    }
}

/// Rewriting is a function of what the item and the engine hold: two
/// renderings of one item, rewritten by engines in the same state, give
/// the same items, or fail alike, and leave the engines in the same state.
pub proof fn law_deterministic(c: CheckerView, first: Item, second: Item)
    requires
        first@ == second@,
    ensures
        folded_item(c, first@) == folded_item(c, second@),
{
}

/// Whether the span scope map holds a record for exactly the location
/// `sp`.
pub open spec fn has_record(log: Seq<SpanScopeView>, sp: Span) -> bool {
    exists|i: int| 0 <= i < log.len() && (#[trigger] log[i]).span == sp
}

/// Whether `at` is the location `sp` or lies in the chain of call sites
/// from which the text at `sp` was expanded.
pub open spec fn in_ancestry(map: SourceMapView, sp: Span, at: Span) -> bool
    decreases sp.ctxt,
{
    at == sp || match call_site_of(map, sp) {
        Some(site) => in_ancestry(map, site, at),
        None => false,
    }
}

/// A location has a configuration recorded exactly where the map holds a
/// record for it, and the configuration is that of one of its records.
pub proof fn lemma_recorded_at(log: Seq<SpanScopeView>, sp: Span)
    ensures
        recorded_at(log, sp).is_some() <==> has_record(log, sp),
        recorded_at(log, sp) matches Some(c) ==> exists|i: int|
            0 <= i < log.len() && (#[trigger] log[i]).span == sp && log[i].config == c,
    decreases log.len(),
{
    if log.len() > 0 {
        let rest = log.drop_last();
        lemma_recorded_at(rest, sp);
        if log.last().span == sp {
            assert(log[log.len() - 1].span == sp);
        } else {
            if has_record(log, sp) {
                let i = choose|i: int| 0 <= i < log.len() && (#[trigger] log[i]).span == sp;
                assert(rest[i].span == sp);
            }
            if has_record(rest, sp) {
                let i = choose|i: int| 0 <= i < rest.len() && (#[trigger] rest[i]).span == sp;
                assert(log[i].span == sp);
            }
            if recorded_at(rest, sp).is_some() {
                let c = recorded_at(rest, sp).unwrap();
                let i = choose|i: int|
                    0 <= i < rest.len() && (#[trigger] rest[i]).span == sp && rest[i].config == c;
                assert(log[i].span == sp && log[i].config == c);
            }
        }
    }
}

/// Span lookup finds nothing for a location where neither the location
/// nor any call site in its ancestry has a record.
pub proof fn law_lookup_absent(log: Seq<SpanScopeView>, map: SourceMapView, sp: Span)
    requires
        forall|at: Span| in_ancestry(map, sp, at) ==> !has_record(log, at),
    ensures
        found_scope(log, map, sp).is_none(),
    decreases sp.ctxt,
{
    assert(in_ancestry(map, sp, sp));
    lemma_recorded_at(log, sp);
    match call_site_of(map, sp) {
        Some(site) => {
            assert forall|at: Span| in_ancestry(map, site, at) implies !has_record(log, at) by {
                assert(in_ancestry(map, sp, at));
            }
            law_lookup_absent(log, map, site);
        },
        None => {},
    }
}

/// What span lookup finds is no false match: it was recorded for the
/// location itself or for a call site in its ancestry.
pub proof fn law_lookup_sound(log: Seq<SpanScopeView>, map: SourceMapView, sp: Span)
    requires
        found_scope(log, map, sp).is_some(),
    ensures
        exists|i: int|
            0 <= i < log.len() && in_ancestry(map, sp, (#[trigger] log[i]).span) && log[i].config
                == found_scope(log, map, sp).unwrap(),
    decreases sp.ctxt,
{
    lemma_recorded_at(log, sp);
    match recorded_at(log, sp) {
        Some(c) => {
            let i = choose|i: int|
                0 <= i < log.len() && (#[trigger] log[i]).span == sp && log[i].config == c;
            assert(in_ancestry(map, sp, log[i].span));
        },
        None => {
            let site = call_site_of(map, sp).unwrap();
            law_lookup_sound(log, map, site);
            let i = choose|i: int|
                0 <= i < log.len() && in_ancestry(map, site, (#[trigger] log[i]).span)
                    && log[i].config == found_scope(log, map, site).unwrap();
            assert(in_ancestry(map, sp, log[i].span));
        },
    }
}

/// The hash function with C linkage of a type is made once: after it was
/// asked for, asking again yields no function and changes nothing.
pub proof fn law_export_once(c: CheckerView, ty: Text, first: Span, again: Span)
    ensures
        c_hash_state(c, ty).emitted.contains(c_hash_name(ty)),
        c_hash_item(c_hash_state(c, ty), ty, again).is_none(),
        c_hash_state(c_hash_state(c, ty), ty) == c_hash_state(c, ty),
{
    if !c.emitted.contains(c_hash_name(ty)) {
        let pushed = c.emitted.push(c_hash_name(ty));
        assert(pushed[pushed.len() - 1] == c_hash_name(ty));
    }
}

/// Whether two scopes differ in nothing but their field cursors.
pub open spec fn same_but_cursor(a: ScopeView, b: ScopeView) -> bool {
    a.file_name == b.file_name && a.items == b.items && a.check_config == b.check_config
}

/// Whether the engine in the state `after` has kept what it held in the
/// state `before`: the records of the span scope map and the emitted names
/// are still there, in their places, beneath what was added; no name is
/// emitted twice if none was; the scope stack holds the scopes that it
/// held, of which at most the innermost has moved its field cursor; and
/// what a walk never changes is unchanged.
pub open spec fn kept(before: CheckerView, after: CheckerView) -> bool {
    &&& before.log.is_prefix_of(after.log)
    &&& before.emitted.is_prefix_of(after.emitted)
    &&& before.emitted.no_duplicates() ==> after.emitted.no_duplicates()
    &&& after.scopes.len() == before.scopes.len()
    &&& after.scopes.drop_last() == before.scopes.drop_last()
    &&& same_but_cursor(before.scopes.last(), after.scopes.last())
    &&& after.external == before.external
    &&& after.map == before.map
    &&& after.export == before.export
    &&& after.default_ahasher == before.default_ahasher
    &&& after.default_shasher == before.default_shasher
}

proof fn lemma_kept_trans(a: CheckerView, b: CheckerView, c: CheckerView)
    requires
        kept(a, b),
        kept(b, c),
    ensures
        kept(a, c),
{
    assert(a.log =~= c.log.subrange(0, a.log.len() as int)) by {
        assert(a.log =~= b.log.subrange(0, a.log.len() as int));
        assert(b.log =~= c.log.subrange(0, b.log.len() as int));
    }
    assert(a.emitted =~= c.emitted.subrange(0, a.emitted.len() as int)) by {
        assert(a.emitted =~= b.emitted.subrange(0, a.emitted.len() as int));
        assert(b.emitted =~= c.emitted.subrange(0, b.emitted.len() as int));
    }
}

proof fn lemma_kept_recorded(c: CheckerView, sp: Span)
    ensures
        kept(c, recorded(c, sp)),
{
    let after = recorded(c, sp);
    assert(c.log =~= after.log.subrange(0, c.log.len() as int));
    assert(c.emitted =~= after.emitted.subrange(0, c.emitted.len() as int));
}

proof fn lemma_kept_pending(c: CheckerView, item: ItemView)
    ensures
        kept(c, with_pending(c, item)),
{
    let after = with_pending(c, item);
    assert(c.log =~= after.log.subrange(0, c.log.len() as int));
    assert(c.emitted =~= after.emitted.subrange(0, c.emitted.len() as int));
}

proof fn lemma_kept_exported(c: CheckerView, ty: Text, span: Span)
    ensures
        kept(c, exported(c, ty, span)),
{
    let after = exported(c, ty, span);
    assert(c.log =~= after.log.subrange(0, c.log.len() as int));
    assert(c.emitted =~= after.emitted.subrange(0, c.emitted.len() as int));
    if c.emitted.no_duplicates() {
        assert(after.emitted.no_duplicates());
    }
}

proof fn lemma_kept_field_idx(c: CheckerView, idx: usize)
    requires
        c.scopes.len() > 0,
    ensures
        kept(c, with_field_idx(c, idx)),
{
    let after = with_field_idx(c, idx);
    assert(after.scopes.drop_last() =~= c.scopes.drop_last());
    assert(c.log =~= after.log.subrange(0, c.log.len() as int));
    assert(c.emitted =~= after.emitted.subrange(0, c.emitted.len() as int));
}

proof fn lemma_kept_fields(
    c: CheckerView,
    fields: Seq<StructFieldView>,
    i: int,
    acc: Seq<StructFieldView>,
)
    requires
        c.scopes.len() > 0,
        folded_fields(c, fields, i, acc) is Ok,
    ensures
        kept(c, folded_fields(c, fields, i, acc)->Ok_0.1),
    decreases fields.len() - i,
{
    if 0 <= i < fields.len() {
        let step = folded_field(c, fields[i]);
        let c1 = step->Ok_0.1;
        assert(c1 == after_field(c, fields[i]));
        if fields[i].ident.is_none() {
            lemma_kept_field_idx(c, (c.scopes.last().field_idx + 1) as usize);
        } else {
            lemma_kept_field_idx(c, c.scopes.last().field_idx);
            assert(kept(c, c1));
        }
        lemma_kept_fields(c1, fields, i + 1, acc.push(step->Ok_0.0));
        lemma_kept_trans(c, c1, folded_fields(c, fields, i, acc)->Ok_0.1);
    } else {
        lemma_kept_field_idx(c, c.scopes.last().field_idx);
    }
}

proof fn lemma_kept_variant_data(c: CheckerView, data: VariantDataView)
    requires
        c.scopes.len() > 0,
        folded_variant_data(c, data) is Ok,
    ensures
        kept(c, folded_variant_data(c, data)->Ok_0.1),
{
    let start = with_field_idx(c, 0);
    lemma_kept_field_idx(c, 0);
    lemma_kept_fields(start, data.fields, 0, Seq::empty());
    lemma_kept_trans(c, start, folded_variant_data(c, data)->Ok_0.1);
}

proof fn lemma_kept_variants(c: CheckerView, variants: Seq<VariantView>, i: int, acc: Seq<VariantView>)
    requires
        c.scopes.len() > 0,
        folded_variants(c, variants, i, acc) is Ok,
    ensures
        kept(c, folded_variants(c, variants, i, acc)->Ok_0.1),
    decreases variants.len() - i,
{
    if 0 <= i < variants.len() {
        let step = folded_variant_data(c, variants[i].data);
        let c1 = step->Ok_0.1;
        lemma_kept_variant_data(c, variants[i].data);
        lemma_kept_variants(
            c1,
            variants,
            i + 1,
            acc.push(VariantView { ident: variants[i].ident, data: step->Ok_0.0 }),
        );
        lemma_kept_trans(c, c1, folded_variants(c, variants, i, acc)->Ok_0.1);
    } else {
        lemma_kept_field_idx(c, c.scopes.last().field_idx);
    }
}

proof fn lemma_kept_foreign_items(c: CheckerView, items: Seq<ForeignItemView>, i: int)
    requires
        c.scopes.len() > 0,
    ensures
        kept(c, after_foreign_items(c, items, i)),
    decreases items.len() - i,
{
    if 0 <= i < items.len() {
        let c1 = after_foreign_item(c, items[i]);
        if items[i].kind == ForeignKind::Type {
            lemma_kept_pending(c, foreign_hash(items[i]));
        } else {
            lemma_kept_field_idx(c, c.scopes.last().field_idx);
        }
        lemma_kept_foreign_items(c1, items, i + 1);
        lemma_kept_trans(c, c1, after_foreign_items(c, items, i));
    } else {
        lemma_kept_field_idx(c, c.scopes.last().field_idx);
    }
}

proof fn lemma_kept_expr(c: CheckerView, e: ExprView)
    requires
        c.scopes.len() > 0,
        folded_expr(c, e) is Ok,
    ensures
        kept(c, folded_expr(c, e)->Ok_0.1),
    decreases e, 0nat,
{
    let c1 = recorded(c, e.span);
    lemma_kept_recorded(c, e.span);
    match e.kind {
        ExprKindView::Compound(t, parts) => {
            lemma_kept_exprs(c1, parts, 0, Seq::empty());
            lemma_kept_trans(c, c1, folded_expr(c, e)->Ok_0.1);
        },
        ExprKindView::Block(b) => {
            lemma_kept_block(c1, b);
            lemma_kept_trans(c, c1, folded_expr(c, e)->Ok_0.1);
        },
        _ => {},
    }
}

proof fn lemma_kept_exprs(c: CheckerView, parts: Seq<ExprView>, i: int, acc: Seq<ExprView>)
    requires
        c.scopes.len() > 0,
        folded_exprs(c, parts, i, acc) is Ok,
    ensures
        kept(c, folded_exprs(c, parts, i, acc)->Ok_0.1),
    decreases parts, parts.len() - i,
{
    if 0 <= i < parts.len() {
        let step = folded_expr(c, parts[i]);
        let c1 = step->Ok_0.1;
        lemma_kept_expr(c, parts[i]);
        lemma_kept_exprs(c1, parts, i + 1, acc.push(step->Ok_0.0));
        lemma_kept_trans(c, c1, folded_exprs(c, parts, i, acc)->Ok_0.1);
    } else {
        lemma_kept_field_idx(c, c.scopes.last().field_idx);
    }
}

proof fn lemma_kept_block(c: CheckerView, b: BlockView)
    requires
        c.scopes.len() > 0,
        folded_block(c, b) is Ok,
    ensures
        kept(c, folded_block(c, b)->Ok_0.1),
    decreases b, 0nat,
{
    lemma_kept_stmts(c, b.stmts, 0, Seq::empty());
}

proof fn lemma_kept_stmts(c: CheckerView, stmts: Seq<StmtView>, i: int, acc: Seq<StmtView>)
    requires
        c.scopes.len() > 0,
        folded_stmts(c, stmts, i, acc) is Ok,
    ensures
        kept(c, folded_stmts(c, stmts, i, acc)->Ok_0.1),
    decreases stmts, stmts.len() - i,
{
    if 0 <= i < stmts.len() {
        let step = folded_stmt(c, stmts[i]);
        let c1 = step->Ok_0.1;
        lemma_kept_stmt(c, stmts[i]);
        lemma_kept_stmts(c1, stmts, i + 1, acc + step->Ok_0.0);
        lemma_kept_trans(c, c1, folded_stmts(c, stmts, i, acc)->Ok_0.1);
    } else {
        lemma_kept_field_idx(c, c.scopes.last().field_idx);
    }
}

proof fn lemma_kept_stmt(c: CheckerView, s: StmtView)
    requires
        c.scopes.len() > 0,
        folded_stmt(c, s) is Ok,
    ensures
        kept(c, folded_stmt(c, s)->Ok_0.1),
    decreases s, 0nat,
{
    match s {
        StmtView::Local(l) => {
            let c1 = recorded(c, l.span);
            lemma_kept_recorded(c, l.span);
            match l.init {
                Some(e) => {
                    lemma_kept_expr(c1, e);
                    lemma_kept_trans(c, c1, folded_stmt(c, s)->Ok_0.1);
                },
                None => {},
            }
        },
        StmtView::Item(item) => {
            let c1 = recorded(c, item.span);
            lemma_kept_recorded(c, item.span);
            lemma_kept_item(c1, item);
            lemma_kept_trans(c, c1, folded_stmt(c, s)->Ok_0.1);
        },
        StmtView::Expr(e) => {
            let c1 = recorded(c, e.span);
            lemma_kept_recorded(c, e.span);
            lemma_kept_expr(c1, e);
            lemma_kept_trans(c, c1, folded_stmt(c, s)->Ok_0.1);
        },
        StmtView::Mac(sp, _) => {
            lemma_kept_recorded(c, sp);
        },
        _ => {
            lemma_kept_field_idx(c, c.scopes.last().field_idx);
        },
    }
}

proof fn lemma_kept_items(c: CheckerView, items: Seq<ItemView>, i: int, acc: Seq<ItemView>)
    requires
        c.scopes.len() > 0,
        folded_items(c, items, i, acc) is Ok,
    ensures
        kept(c, folded_items(c, items, i, acc)->Ok_0.1),
    decreases items, items.len() - i,
{
    if 0 <= i < items.len() {
        let step = folded_item(c, items[i]);
        let c1 = step->Ok_0.1;
        lemma_kept_item(c, items[i]);
        lemma_kept_items(c1, items, i + 1, acc + step->Ok_0.0);
        lemma_kept_trans(c, c1, folded_items(c, items, i, acc)->Ok_0.1);
    } else {
        lemma_kept_field_idx(c, c.scopes.last().field_idx);
    }
}

proof fn lemma_kept_impl_item(c: CheckerView, item: ItemView)
    requires
        c.scopes.len() > 0,
        folded_impl_item(c, item) is Ok,
    ensures
        kept(c, folded_impl_item(c, item)->Ok_0.1),
    decreases item, 3nat,
{
    if item.kind is Fn {
        lemma_kept_item_simple(c, item);
    } else {
        lemma_kept_field_idx(c, c.scopes.last().field_idx);
    }
}

proof fn lemma_kept_impl_items(c: CheckerView, items: Seq<ItemView>, i: int, acc: Seq<ItemView>)
    requires
        c.scopes.len() > 0,
        folded_impl_items(c, items, i, acc) is Ok,
    ensures
        kept(c, folded_impl_items(c, items, i, acc)->Ok_0.1),
    decreases items, items.len() - i,
{
    if 0 <= i < items.len() {
        let step = folded_impl_item(c, items[i]);
        let c1 = step->Ok_0.1;
        lemma_kept_impl_item(c, items[i]);
        lemma_kept_impl_items(c1, items, i + 1, acc.push(step->Ok_0.0));
        lemma_kept_trans(c, c1, folded_impl_items(c, items, i, acc)->Ok_0.1);
    } else {
        lemma_kept_field_idx(c, c.scopes.last().field_idx);
    }
}

proof fn lemma_kept_kind(c: CheckerView, kind: ItemKindView)
    requires
        c.scopes.len() > 0,
        folded_kind(c, kind) is Ok,
    ensures
        kept(c, folded_kind(c, kind)->Ok_0.1),
    decreases kind, 0nat,
{
    match kind {
        ItemKindView::Fn(_, body) => {
            lemma_kept_block(c, body);
        },
        ItemKindView::Mod(_, items) => {
            lemma_kept_items(c, items, 0, Seq::empty());
        },
        ItemKindView::Struct(data) => {
            lemma_kept_variant_data(c, data);
        },
        ItemKindView::Enum(variants) => {
            lemma_kept_variants(c, variants, 0, Seq::empty());
        },
        ItemKindView::Union(data) => {
            lemma_kept_variant_data(c, data);
        },
        ItemKindView::Impl(_, items) => {
            lemma_kept_impl_items(c, items, 0, Seq::empty());
        },
        ItemKindView::ForeignMod(items) => {
            lemma_kept_foreign_items(c, items, 0);
        },
        _ => {
            lemma_kept_field_idx(c, c.scopes.last().field_idx);
        },
    }
}

proof fn lemma_kept_item_inner(c: CheckerView, item: ItemView)
    requires
        c.scopes.len() > 0,
        folded_item_inner(c, item) is Ok,
    ensures
        kept(c, folded_item_inner(c, item)->Ok_0.1),
    decreases item, 1nat,
{
    let step = folded_kind(c, item.kind);
    let c1 = step->Ok_0.1;
    let last = folded_item_inner(c, item)->Ok_0.1;
    lemma_kept_kind(c, item.kind);
    match step->Ok_0.0 {
        ItemKindView::Fn(_, _) => {},
        ItemKindView::Union(_) => {
            let hash = union_hash(config_of(c1), item.ident, item.span);
            lemma_kept_pending(c1, hash);
            lemma_kept_exported(with_pending(c1, hash), item.ident, item.span);
            lemma_kept_trans(c1, with_pending(c1, hash), last);
            lemma_kept_trans(c, c1, last);
        },
        ItemKindView::Struct(_) | ItemKindView::Enum(_) => {
            lemma_kept_exported(c1, item.ident, item.span);
            lemma_kept_trans(c, c1, last);
        },
        ItemKindView::Mac(_) => {
            lemma_kept_recorded(c1, item.span);
            lemma_kept_trans(c, c1, last);
        },
        _ => {},
    }
}

proof fn lemma_kept_item_simple(c: CheckerView, item: ItemView)
    requires
        c.scopes.len() > 0,
        folded_item_simple(c, item) is Ok,
    ensures
        kept(c, folded_item_simple(c, item)->Ok_0.1),
    decreases item, 2nat,
{
    if c.skip_first {
        let start = CheckerView { skip_first: false, ..c };
        lemma_kept_item_inner(start, item);
    } else {
        let start = pushed(c, new_scope(c, item)->Ok_0);
        lemma_kept_item_inner(start, item);
        let c1 = folded_item_inner(start, item)->Ok_0.1;
        assert(start.scopes.drop_last() =~= c.scopes);
        assert(popped(c1).scopes == c.scopes);
    }
}

proof fn lemma_kept_item(c: CheckerView, item: ItemView)
    requires
        c.scopes.len() > 0,
        folded_item(c, item) is Ok,
    ensures
        kept(c, folded_item(c, item)->Ok_0.1),
    decreases item, 3nat,
{
    lemma_kept_item_simple(c, item);
}

/// A walk takes nothing back. When an item was rewritten, the span scope
/// map holds every record that it held before, and the names of the
/// exported hash functions are all still there; a name is not there twice
/// unless it was before, so that within one pass, and from one pass to the
/// next, a function of one name is exported once. And every scope that
/// the walk pushed is popped again: the scope stack is as it was, but for
/// the field cursor of its innermost scope.
pub proof fn law_walk_keeps_records(c: CheckerView, item: ItemView)
    requires
        c.scopes.len() > 0,
        folded_item(c, item) is Ok,
    ensures
        kept(c, folded_item(c, item)->Ok_0.1),
{
    lemma_kept_item(c, item);
}

/// An item that gets a scope of its own leaves the scope stack exactly as
/// it found it, and leaves no item pending: what was pending follows the
/// item.
pub proof fn law_scopes_restored(c: CheckerView, item: ItemView)
    requires
        c.scopes.len() > 0,
        !c.skip_first,
        folded_item(c, item) is Ok,
    ensures
        folded_item(c, item)->Ok_0.1.scopes == c.scopes,
        folded_item(c, item)->Ok_0.1.pending == Seq::<ItemView>::empty(),
        folded_item(c, item)->Ok_0.0.len() == 1 + folded_item_simple(c, item)->Ok_0.1.pending.len(),
{
    let start = pushed(c, new_scope(c, item)->Ok_0);
    lemma_kept_item_inner(start, item);
    let c1 = folded_item_inner(start, item)->Ok_0.1;
    assert(start.scopes.drop_last() =~= c.scopes);
    assert(popped(c1).scopes == c.scopes);
}

/// A directive takes nothing back either: whatever it yields, the
/// expander holds every record of the span scope map and every emitted
/// name that it held before, and no name twice unless it did before.
pub proof fn law_expansion_keeps_records(
    x: ExpanderView,
    map: SourceMapView,
    sp: Span,
    mi: MetaArgView,
    item: ItemView,
)
    requires
        expanded(x, map, sp, mi, item) is Ok,
    ensures
        ({
            let after = expanded(x, map, sp, mi, item)->Ok_0.1;
            &&& x.log.is_prefix_of(after.log)
            &&& x.emitted.is_prefix_of(after.emitted)
            &&& x.emitted.no_duplicates() ==> after.emitted.no_duplicates()
            &&& after.external == x.external
            &&& after.export == x.export
        }),
{
    match dispatch(x, map, sp, mi, item) {
        Ok(Some((config, skip_first))) => {
            let start = start_checker(x, map, sp, config, skip_first);
            lemma_kept_item(start, item);
        },
        _ => {},
    }
}

/// Whether no two files of a configuration have one name.
pub open spec fn distinct_files(files: Seq<FileConfigView>) -> bool {
    forall|i: int, j: int|
        0 <= i < files.len() && 0 <= j < files.len() && i != j ==> (#[trigger] files[i]).name != (
        #[trigger] files[j]).name
}

/// The entries that a configuration holds for a file, none where it does
/// not know the file.
pub open spec fn held_items(files: Seq<FileConfigView>, name: Text) -> Seq<ItemEntryView> {
    match file_items(files, name) {
        Some(items) => items,
        None => Seq::empty(),
    }
}

proof fn lemma_file_index(files: Seq<FileConfigView>, name: Text, from: int)
    requires
        0 <= from,
    ensures
        match file_index(files, name, from) {
            Some(i) => from <= i < files.len() && files[i].name == name && forall|k: int|
                from <= k < i ==> (#[trigger] files[k]).name != name,
            None => forall|k: int| from <= k < files.len() ==> (#[trigger] files[k]).name != name,
        },
    decreases files.len() - from,
{
    if from < files.len() && files[from].name != name {
        lemma_file_index(files, name, from + 1);
    }
}

proof fn lemma_file_index_names(
    a: Seq<FileConfigView>,
    b: Seq<FileConfigView>,
    name: Text,
    from: int,
)
    requires
        0 <= from,
        a.len() == b.len(),
        forall|k: int| 0 <= k < a.len() ==> (#[trigger] a[k]).name == b[k].name,
    ensures
        file_index(a, name, from) == file_index(b, name, from),
    decreases a.len() - from,
{
    if from < a.len() {
        assert(a[from].name == b[from].name);
        if a[from].name != name {
            lemma_file_index_names(a, b, name, from + 1);
        }
    }
}

proof fn lemma_file_index_push(files: Seq<FileConfigView>, f: FileConfigView, name: Text, from: int)
    requires
        0 <= from <= files.len(),
    ensures
        file_index(files, name, from) is Some ==> file_index(files.push(f), name, from)
            == file_index(files, name, from),
        file_index(files, name, from) is None && f.name != name ==> file_index(
            files.push(f),
            name,
            from,
        ) is None,
        file_index(files, name, from) is None && f.name == name ==> file_index(
            files.push(f),
            name,
            from,
        ) == Some(files.len() as int),
    decreases files.len() - from,
{
    let more = files.push(f);
    if from < files.len() {
        assert(more[from] == files[from]);
        if files[from].name != name {
            lemma_file_index_push(files, f, name, from + 1);
        }
    } else {
        assert(more[from] == f);
        if f.name != name {
            assert(file_index(more, name, from + 1) is None);
        }
    }
}

/// Adding a file puts its entries behind those that the configuration
/// held for a file of that name, leaves the entries of every other file as
/// they were, and gives no name to two files.
pub proof fn law_add_file(files: Seq<FileConfigView>, f: FileConfigView, other: Text)
    ensures
        file_items(with_file(files, f), f.name) == Some(held_items(files, f.name) + f.items),
        other != f.name ==> file_items(with_file(files, f), other) == file_items(files, other),
        distinct_files(files) ==> distinct_files(with_file(files, f)),
{
    let after = with_file(files, f);
    lemma_file_index(files, f.name, 0);
    match file_index(files, f.name, 0) {
        Some(i) => {
            lemma_file_index_names(files, after, f.name, 0);
            lemma_file_index_names(files, after, other, 0);
            lemma_file_index(files, other, 0);
            if other != f.name && file_index(files, other, 0) is Some {
                let j = file_index(files, other, 0)->Some_0;
                assert(j != i);
                assert(after[j] == files[j]);
            }
            if distinct_files(files) {
                assert forall|a: int, b: int|
                    0 <= a < after.len() && 0 <= b < after.len() && a != b implies (
                #[trigger] after[a]).name != (#[trigger] after[b]).name by {
                    assert(after[a].name == files[a].name);
                    assert(after[b].name == files[b].name);
                }
            }
        },
        None => {
            lemma_file_index_push(files, f, f.name, 0);
            lemma_file_index_push(files, f, other, 0);
            lemma_file_index(files, other, 0);
            if other != f.name && file_index(files, other, 0) is Some {
                let j = file_index(files, other, 0)->Some_0;
                assert(after[j] == files[j]);
            }
            assert(held_items(files, f.name) + f.items =~= f.items);
            if distinct_files(files) {
                assert forall|a: int, b: int|
                    0 <= a < after.len() && 0 <= b < after.len() && a != b implies (
                #[trigger] after[a]).name != (#[trigger] after[b]).name by {
                    if a < files.len() {
                        assert(after[a] == files[a]);
                    }
                    if b < files.len() {
                        assert(after[b] == files[b]);
                    }
                }
            }
        },
    }
}

} // verus!
