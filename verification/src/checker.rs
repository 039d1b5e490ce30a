//! The rewriting engine.
//!
//! A [`CrossChecker`] walks a syntax tree depth first. Entering an item it
//! resolves the item's scope and pushes it on the scope stack; the item's
//! content is rewritten under that scope, children before their parent;
//! leaving the item it pops the scope. Items that the walk creates wait in
//! a queue and are put behind the item that caused them.
//!
//! What each step yields is defined by the spec functions of
//! [`crate::rewrite`] on the views of the tree and of the engine.

use vstd::prelude::*;
use crate::attr::{
    attr_is_cross_check, field_result, find_cross_check_attr, parse_attr_config,
    parse_field_directive,
};
use crate::config::{ItemCheckConfig, ScopeCheckConfig};
use crate::directive::{CheckDirective, FieldId, lookup};
use crate::error::CheckError;
use crate::external::ExternalConfig;
use crate::rewrite::{
    CheckerView, after_field, after_foreign_item, after_foreign_items, aggregate_attrs, arg_check,
    arg_checks, baseline, block_result, built_check, c_hash_item, c_hash_state, config_of,
    default_ahasher, default_shasher, entry_extras, exit_extras, exported, extra_checks, field_id,
    folded_block, folded_expr, folded_exprs, folded_field, folded_fields, folded_impl_item,
    folded_impl_items, folded_item, folded_item_inner, folded_item_simple, folded_items,
    folded_kind, folded_stmt, folded_stmts, folded_variant_data, folded_variants, function_body,
    hash_attr_args, hasher_pair, inline_field_directive, item_stmts, kept_attrs, new_scope,
    opt_marker, opt_stmt, popped, pushed, recorded, resolved, stmts_result, union_hash,
    with_field_idx,
};
use crate::scope::{ScopeConfig, ScopeView, scopes_view};
use crate::span::{EmittedSymbols, SourceMap, Span, SpanScopeMap};
use crate::text::{opt_text, texts};
use crate::tree::{
    Arg, Attribute, Block, Check, CheckKind, CheckTag, CheckView, Expr, ExprKind, FieldMarker,
    FnDecl, ForeignItem, ForeignKind, HashBody, HashKey, HashOption, Item, ItemKind, ItemView,
    Local, Pattern, Stmt, StmtView, StructField, StructFieldView, Variant, VariantData,
    append_items, append_stmts, args_view, attrs_view, exprs_view, fields_view, foreign_items_view,
    hash_options_view, items_view, push_attr, push_expr, push_field, push_foreign_item,
    push_hash_option, push_item, push_stmt, push_variant, stmts_view, variants_view,
};

verus! {

/// The engine: the scope stack, the queue of pending items, and the two
/// records that outlive one walk, the span scope map and the names of the
/// exported hash functions.
#[derive(Debug, PartialEq, Eq)]
pub struct CrossChecker<'a> {
    /// The external configuration.
    pub external: &'a ExternalConfig,
    /// What is known of the source text.
    pub cx: &'a SourceMap,
    /// The scopes of the items that the walk is inside of, innermost last.
    pub scope_stack: Vec<ScopeConfig<'a>>,
    /// The aggregate hasher where the configuration names none.
    pub default_ahasher: String,
    /// The simple hasher where the configuration names none.
    pub default_shasher: String,
    /// New items to add at the next item boundary.
    pub pending_items: Vec<Item>,
    /// Whether the next item is rewritten under the scope on top of the
    /// stack, without a scope of its own.
    pub skip_first_scope: bool,
    /// Whether hash functions with C linkage are exported for aggregates.
    pub export_c_hash: bool,
    /// The span scope map.
    pub macro_scopes: SpanScopeMap,
    /// The names of the hash functions exported so far.
    pub c_hash_functions: EmittedSymbols,
}

impl<'a> View for CrossChecker<'a> {
    type V = CheckerView;

    open spec fn view(&self) -> CheckerView {
        CheckerView {
            external: self.external@,
            map: self.cx@,
            scopes: scopes_view(self.scope_stack@),
            default_ahasher: self.default_ahasher@,
            default_shasher: self.default_shasher@,
            pending: items_view(self.pending_items@),
            skip_first: self.skip_first_scope,
            export: self.export_c_hash,
            log: self.macro_scopes@,
            emitted: self.c_hash_functions@,
        }
    }
}

/// The view of a check that was built, or of the error instead.
pub open spec fn check_result(r: Result<Option<Check>, CheckError>) -> Result<
    Option<CheckView>,
    CheckError,
> {
    match r {
        Ok(c) => Ok(opt_check(c)),
        Err(e) => Err(e),
    }
}

/// Builds the check that a directive asks for at one point: of a value
/// where `of_value` holds, of a name otherwise.
pub fn build_xcheck(d: &CheckDirective, tag: CheckTag, name: &String, of_value: bool) -> (r: Result<
    Option<Check>,
    CheckError,
>)
    ensures
        check_result(r) == built_check(d@, tag, name@, of_value),
{
    let kind = match d {
        CheckDirective::Default => CheckKind::Hash,
        CheckDirective::Disabled => {
            return Ok(None);
        },
        CheckDirective::Fixed(v) => CheckKind::Fixed(*v),
        CheckDirective::AsType(t) => if of_value {
            CheckKind::HashAs(t.clone())
        } else {
            CheckKind::Hash
        },
        CheckDirective::Custom(e) => CheckKind::Custom(e.clone()),
        CheckDirective::Named(_) => {
            return Err(CheckError::ReservedDirective);
        },
    };
    Ok(Some(Check { tag, name: name.clone(), kind }))
}

impl<'a> CrossChecker<'a> {
    /// Whether the engine is inside a scope, as it is from its making on.
    pub open spec fn wf(&self) -> bool {
        self.scope_stack.len() > 0
    }

    /// An engine that starts under `top_scope`, with the records of
    /// earlier walks.
    pub fn new(
        external: &'a ExternalConfig,
        cx: &'a SourceMap,
        top_scope: ScopeConfig<'a>,
        skip_first_scope: bool,
        export_c_hash: bool,
        macro_scopes: SpanScopeMap,
        c_hash_functions: EmittedSymbols,
    ) -> (r: CrossChecker<'a>)
        ensures
            r.wf(),
            r@ == (CheckerView {
                external: external@,
                map: cx@,
                scopes: seq![top_scope@],
                default_ahasher: default_ahasher(),
                default_shasher: default_shasher(),
                pending: Seq::empty(),
                skip_first: skip_first_scope,
                export: export_c_hash,
                log: macro_scopes@,
                emitted: c_hash_functions@,
            }),
    {
        let mut scope_stack: Vec<ScopeConfig<'a>> = Vec::new();
        scope_stack.push(top_scope);
        let r = CrossChecker {
            external,
            cx,
            scope_stack,
            default_ahasher: String::from_str("::cross_check_runtime::hash::jodyhash::JodyHasher"),
            default_shasher: String::from_str("::cross_check_runtime::hash::simple::SimpleHasher"),
            pending_items: Vec::new(),
            skip_first_scope,
            export_c_hash,
            macro_scopes,
            c_hash_functions,
        };
        assert(r@.scopes =~= seq![top_scope@]);
        assert(r@.pending =~= Seq::empty());
        r
    }

    /// The innermost scope.
    pub fn last_scope(&self) -> (r: &ScopeConfig<'a>)
        requires
            self.wf(),
        ensures
            r@ == self@.scopes.last(),
    {
        &self.scope_stack[self.scope_stack.len() - 1]
    }

    /// The configuration of the innermost scope.
    pub fn config(&self) -> (r: &ScopeCheckConfig)
        requires
            self.wf(),
        ensures
            r@ == config_of(self@),
    {
        &self.last_scope().check_config
    }

    /// The aggregate hasher and the simple hasher of the innermost scope.
    pub fn get_hasher_pair(&self) -> (r: (&String, &String))
        requires
            self.wf(),
        ensures
            (r.0@, r.1@) == hasher_pair(self@),
    {
        let inherited = &self.config().inherited;
        let a = match &inherited.ahasher {
            Some(h) => h,
            None => &self.default_ahasher,
        };
        let s = match &inherited.shasher {
            Some(h) => h,
            None => &self.default_shasher,
        };
        (a, s)
    }

    /// Builds the check of one argument of a function.
    pub fn build_arg_xcheck(&self, arg: &Arg) -> (r: Result<Option<Check>, CheckError>)
        requires
            self.wf(),
        ensures
            check_result(r) == arg_check(config_of(self@), arg@),
    {
        match &arg.pat {
            Pattern::Ident(name) => {
                let cfg = self.config();
                let key = FieldId::Name(name.clone());
                let own = match &cfg.item {
                    ItemCheckConfig::Function(f) => lookup(&f.args, &key),
                    _ => None,
                };
                let d = match own {
                    Some(d) => d,
                    None => &cfg.inherited.all_args,
                };
                build_xcheck(d, CheckTag::FunctionArg, name, true)
            },
            Pattern::Other(_) => Err(CheckError::UnsupportedPattern),
        }
    }

    /// The settings that the hash configuration marker of the aggregate in
    /// the innermost scope carries.
    pub fn build_hash_attr_args(&self) -> (r: Vec<HashOption>)
        requires
            self.wf(),
        ensures
            hash_options_view(r@) == hash_attr_args(config_of(self@)),
    {
        let cfg = self.config();
        let mut res: Vec<HashOption> = Vec::new();
        assert(hash_options_view(res@) =~= Seq::empty());
        if let Some(h) = &cfg.inherited.ahasher {
            push_hash_option(&mut res, HashOption { key: HashKey::AggregateHasher, value: h.clone() });
        }
        if let Some(h) = &cfg.inherited.shasher {
            push_hash_option(&mut res, HashOption { key: HashKey::SimpleHasher, value: h.clone() });
        }
        if let ItemCheckConfig::Struct(c) = &cfg.item {
            if let Some(h) = &c.field_hasher {
                push_hash_option(&mut res, HashOption { key: HashKey::FieldHasher, value: h.clone() });
            }
            if let Some(h) = &c.custom_hash {
                push_hash_option(&mut res, HashOption { key: HashKey::CustomHash, value: h.clone() });
            }
        }
        assert(hash_options_view(res@) =~= hash_attr_args(config_of(self@)));
        res
    }

    /// The checks of a list of extra expressions of the function `name`.
    pub fn build_extra_xchecks(name: &String, tag: CheckTag, extra_xchecks: &Vec<String>) -> (r: Vec<
        Stmt,
    >)
        ensures
            stmts_view(r@) == extra_checks(name@, tag, texts(extra_xchecks@)),
    {
        let mut res: Vec<Stmt> = Vec::new();
        let mut i: usize = 0;
        assert(stmts_view(res@) =~= extra_checks(name@, tag, texts(extra_xchecks@)).take(0)) by {
            reveal_with_fuel(stmts_view, 2);
        }
        while i < extra_xchecks.len()
            invariant
                i <= extra_xchecks.len(),
                stmts_view(res@) == extra_checks(name@, tag, texts(extra_xchecks@)).take(i as int),
            decreases extra_xchecks.len() - i,
        {
            let check = Check {
                tag,
                name: name.clone(),
                kind: CheckKind::Extra(extra_xchecks[i].clone()),
            };
            let ghost before = stmts_view(res@);
            push_stmt(&mut res, Stmt::Check(check));
            assert(before.push(Stmt::Check(check)@) =~= extra_checks(
                name@,
                tag,
                texts(extra_xchecks@),
            ).take(i + 1));
            i = i + 1;
        }
        assert(extra_checks(name@, tag, texts(extra_xchecks@)).take(i as int) =~= extra_checks(
            name@,
            tag,
            texts(extra_xchecks@),
        ));
        res
    }

    fn build_arg_xchecks(&self, inputs: &Vec<Arg>) -> (r: Result<Vec<Stmt>, CheckError>)
        requires
            self.wf(),
        ensures
            stmts_result(r) == arg_checks(config_of(self@), args_view(inputs@), 0, Seq::empty()),
    {
        let mut res: Vec<Stmt> = Vec::new();
        let mut i: usize = 0;
        assert(stmts_view(res@) =~= Seq::empty()) by {
            reveal_with_fuel(stmts_view, 2);
        }
        while i < inputs.len()
            invariant
                self.wf(),
                i <= inputs.len(),
                arg_checks(config_of(self@), args_view(inputs@), 0, Seq::empty()) == arg_checks(
                    config_of(self@),
                    args_view(inputs@),
                    i as int,
                    stmts_view(res@),
                ),
            decreases inputs.len() - i,
        {
            assert(args_view(inputs@)[i as int] == inputs[i as int]@);
            let ghost before = stmts_view(res@);
            match self.build_arg_xcheck(&inputs[i]) {
                Ok(Some(c)) => {
                    push_stmt(&mut res, Stmt::Check(c));
                    assert(stmts_view(res@) =~= before + opt_stmt(Some(c@)));
                },
                Ok(None) => {
                    assert(before =~= before + opt_stmt(None));
                },
                Err(e) => {
                    return Err(e);
                },
            }
            i = i + 1;
        }
        Ok(res)
    }

    /// Wraps the body of a function in its checks.
    pub fn build_function_xchecks(&self, fn_ident: &String, fn_decl: &FnDecl, block: Block) -> (r:
        Result<Block, CheckError>)
        requires
            self.wf(),
        ensures
            block_result(r) == function_body(
                config_of(self@),
                hasher_pair(self@),
                fn_ident@,
                fn_decl@,
                block@,
            ),
    {
        let (ahasher, shasher) = self.get_hasher_pair();
        let mut stmts: Vec<Stmt> = Vec::new();
        assert(stmts_view(stmts@) =~= Seq::empty()) by {
            reveal_with_fuel(stmts_view, 2);
        }
        add_stmt(&mut stmts, Stmt::HasherAliases(ahasher.clone(), shasher.clone()));
        assert(stmts_view(stmts@) =~= seq![StmtView::HasherAliases(ahasher@, shasher@)]);
        let cfg = self.config();
        if !cfg.inherited.enabled {
            append_stmts(&mut stmts, block.stmts);
            return Ok(Block { stmts });
        }
        let entry = match build_xcheck(&cfg.inherited.entry, CheckTag::FunctionEntry, fn_ident, false) {
            Ok(c) => c,
            Err(e) => {
                return Err(e);
            },
        };
        let exit = match build_xcheck(&cfg.inherited.exit, CheckTag::FunctionExit, fn_ident, false) {
            Ok(c) => c,
            Err(e) => {
                return Err(e);
            },
        };
        let args = match self.build_arg_xchecks(&fn_decl.inputs) {
            Ok(a) => a,
            Err(e) => {
                return Err(e);
            },
        };
        let ret = match build_xcheck(&cfg.inherited.ret, CheckTag::FunctionReturn, fn_ident, true) {
            Ok(c) => c,
            Err(e) => {
                return Err(e);
            },
        };
        let result_ty = match &fn_decl.output {
            Some(t) => t.clone(),
            None => String::from_str("()"),
        };
        add_check(&mut stmts, entry);
        append_stmts(&mut stmts, args);
        let extra = self.build_entry_extras(fn_ident);
        append_stmts(&mut stmts, extra);
        add_stmt(&mut stmts, Stmt::CallBody(result_ty, block));
        add_check(&mut stmts, exit);
        add_check(&mut stmts, ret);
        let extra = self.build_exit_extras(fn_ident);
        append_stmts(&mut stmts, extra);
        add_stmt(&mut stmts, Stmt::YieldResult);
        Ok(Block { stmts })
    }

    fn build_entry_extras(&self, fn_ident: &String) -> (r: Vec<Stmt>)
        requires
            self.wf(),
        ensures
            stmts_view(r@) == extra_checks(
                fn_ident@,
                CheckTag::FunctionEntry,
                entry_extras(config_of(self@)),
            ),
    {
        match &self.config().item {
            ItemCheckConfig::Function(f) => Self::build_extra_xchecks(
                fn_ident,
                CheckTag::FunctionEntry,
                &f.entry_extra,
            ),
            _ => {
                let none: Vec<String> = Vec::new();
                assert(texts(none@) =~= Seq::empty());
                Self::build_extra_xchecks(fn_ident, CheckTag::FunctionEntry, &none)
            },
        }
    }

    fn build_exit_extras(&self, fn_ident: &String) -> (r: Vec<Stmt>)
        requires
            self.wf(),
        ensures
            stmts_view(r@) == extra_checks(
                fn_ident@,
                CheckTag::FunctionExit,
                exit_extras(config_of(self@)),
            ),
    {
        match &self.config().item {
            ItemCheckConfig::Function(f) => Self::build_extra_xchecks(
                fn_ident,
                CheckTag::FunctionExit,
                &f.exit_extra,
            ),
            _ => {
                let none: Vec<String> = Vec::new();
                assert(texts(none@) =~= Seq::empty());
                Self::build_extra_xchecks(fn_ident, CheckTag::FunctionExit, &none)
            },
        }
    }
}

impl<'a> CrossChecker<'a> {
    /// The hash implementation of the union `union_ident`.
    pub fn build_union_hash(&self, union_ident: &String, span: Span) -> (r: Item)
        requires
            self.wf(),
        ensures
            r@ == union_hash(config_of(self@), union_ident@, span),
    {
        let body = match &self.config().item {
            ItemCheckConfig::Struct(c) => match &c.custom_hash {
                Some(e) => HashBody::Custom(e.clone()),
                None => HashBody::Opaque,
            },
            _ => HashBody::Opaque,
        };
        let r = Item {
            ident: union_ident.clone(),
            attrs: Vec::new(),
            span,
            kind: ItemKind::HashImpl(body),
        };
        assert(r@.attrs =~= Seq::empty());
        r
    }

    /// The exported hash function for the type `ty_ident`, unless one of
    /// its name was emitted before. The name is emitted from now on.
    pub fn build_type_c_hash_function(&mut self, ty_ident: &String, span: Span) -> (r: Option<Item>)
        requires
            old(self).wf(),
        ensures
            opt_item(r) == c_hash_item(old(self)@, ty_ident@, span),
            final(self)@ == c_hash_state(old(self)@, ty_ident@),
            final(self).scope_stack.len() == old(self).scope_stack.len(),
    {
        let hash_fn_name = String::from_str("__c2rust_hash_").concat(ty_ident.as_str());
        if !self.c_hash_functions.insert(hash_fn_name.clone()) {
            return None;
        }
        let (ahasher, shasher) = self.get_hasher_pair();
        let r = Item {
            ident: hash_fn_name,
            attrs: Vec::new(),
            span,
            kind: ItemKind::HashExport(ty_ident.clone(), ahasher.clone(), shasher.clone()),
        };
        assert(r@.attrs =~= Seq::empty());
        Some(r)
    }

    fn export_c_hash_function(&mut self, ty_ident: &String, span: Span)
        requires
            old(self).wf(),
        ensures
            final(self)@ == exported(old(self)@, ty_ident@, span),
            final(self).scope_stack.len() == old(self).scope_stack.len(),
    {
        if self.export_c_hash {
            match self.build_type_c_hash_function(ty_ident, span) {
                Some(item) => {
                    push_item(&mut self.pending_items, item);
                },
                None => {},
            }
        }
    }

    /// Records that the configuration of the innermost scope is in force
    /// at `sp`.
    pub fn record_scope(&mut self, sp: Span)
        requires
            old(self).wf(),
        ensures
            final(self)@ == recorded(old(self)@, sp),
            final(self).scope_stack.len() == old(self).scope_stack.len(),
    {
        let config = self.config().inherited.clone();
        self.macro_scopes.record(sp, config);
    }

    /// The directive that the attributes of a field give.
    pub fn parse_field_attr(&self, attrs: &Vec<Attribute>) -> (r: Result<
        Option<CheckDirective>,
        CheckError,
    >)
        ensures
            field_result(r) == inline_field_directive(attrs_view(attrs@)),
    {
        match find_cross_check_attr(attrs) {
            Some(m) => parse_field_directive(m),
            None => Ok(None),
        }
    }

    fn next_field_id(&mut self, ident: &Option<String>) -> (r: FieldId)
        requires
            old(self).wf(),
            old(self).scope_stack@.last().field_idx < usize::MAX,
        ensures
            final(self).scope_stack.len() == old(self).scope_stack.len(),
            forall|f: StructFieldView|
                f.ident == opt_text(*ident) ==> r@ == field_id(old(self)@, f) && final(self)@
                    == after_field(old(self)@, f),
    {
        match ident {
            Some(n) => FieldId::Name(n.clone()),
            None => {
                let n = self.scope_stack.len();
                let idx = self.scope_stack[n - 1].field_idx;
                let top = &mut self.scope_stack[n - 1];
                top.field_idx = idx + 1;
                assert(self@.scopes =~= old(self)@.scopes.update(
                    n - 1,
                    ScopeView { field_idx: (idx + 1) as usize, ..old(self)@.scopes.last() },
                ));
                FieldId::Index(idx)
            },
        }
    }

    /// Rewrites one field of an aggregate.
    pub fn fold_struct_field(&mut self, sf: StructField) -> (r: Result<StructField, CheckError>)
        requires
            old(self).wf(),
            old(self).scope_stack@.last().field_idx < usize::MAX,
        ensures
            match folded_field(old(self)@, sf@) {
                Ok((out, c)) => r matches Ok(x) && x@ == out && final(self)@ == c
                    && final(self).scope_stack.len() == old(self).scope_stack.len(),
                Err(e) => r matches Err(x) && x == e,
            },
    {
        let sf_name = self.next_field_id(&sf.ident);
        let inline = match self.parse_field_attr(&sf.attrs) {
            Ok(d) => d,
            Err(e) => {
                return Err(e);
            },
        };
        let own = match &self.config().item {
            ItemCheckConfig::Struct(c) => lookup(&c.fields, &sf_name),
            _ => None,
        };
        let chosen: Option<&CheckDirective> = match own {
            Some(d) => Some(d),
            None => match &inline {
                Some(d) => Some(d),
                None => None,
            },
        };
        let marker = match chosen {
            None => None,
            Some(d) => match d {
                CheckDirective::Default => None,
                CheckDirective::AsType(t) => Some(FieldMarker::AsType(t.clone())),
                CheckDirective::Disabled => Some(FieldMarker::Exclude),
                CheckDirective::Fixed(v) => Some(FieldMarker::Fixed(*v)),
                CheckDirective::Custom(e) => Some(FieldMarker::Custom(e.clone())),
                CheckDirective::Named(_) => {
                    return Err(CheckError::ReservedDirective);
                },
            },
        };
        let StructField { ident, attrs, ty } = sf;
        let mut kept = strip_cross_check(attrs);
        match marker {
            Some(m) => {
                let ghost before = attrs_view(kept@);
                push_attr(&mut kept, Attribute::FieldHash(m));
                assert(attrs_view(kept@) =~= before + opt_marker(Some(m@)));
            },
            None => {
                assert(attrs_view(kept@) =~= attrs_view(kept@) + opt_marker(None));
            },
        }
        Ok(StructField { ident, attrs: kept, ty })
    }

    /// Rewrites the body of one aggregate. Its fields without a name are
    /// counted from zero.
    pub fn fold_variant_data(&mut self, vdata: VariantData) -> (r: Result<VariantData, CheckError>)
        requires
            old(self).wf(),
        ensures
            match folded_variant_data(old(self)@, vdata@) {
                Ok((out, c)) => r matches Ok(x) && x@ == out && final(self)@ == c
                    && final(self).scope_stack.len() == old(self).scope_stack.len(),
                Err(e) => r matches Err(x) && x == e,
            },
    {
        let n = self.scope_stack.len();
        let top = &mut self.scope_stack[n - 1];
        top.field_idx = 0;
        assert(self@ == with_field_idx(old(self)@, 0)) by {
            assert(self@.scopes =~= old(self)@.scopes.update(
                n - 1,
                ScopeView { field_idx: 0, ..old(self)@.scopes.last() },
            ));
        }
        let ghost start = self@;
        let ghost all = vdata.fields@;
        let mut out: Vec<StructField> = Vec::new();
        assert(fields_view(out@) =~= Seq::empty());
        assert(all.len() == vdata.fields.len());
        for f in it: vdata.fields
            invariant
                it.seq() == all,
                all.len() <= usize::MAX,
                start == with_field_idx(old(self)@, 0),
                vdata@.fields == fields_view(all),
                self.scope_stack.len() == n,
                n == old(self).scope_stack.len(),
                n > 0,
                self.scope_stack@.last().field_idx <= it.index(),
                folded_fields(start, fields_view(all), 0, Seq::empty()) == folded_fields(
                    self@,
                    fields_view(all),
                    it.index() as int,
                    fields_view(out@),
                ),
        {
            assert(fields_view(all)[it.index() as int] == f@);
            match self.fold_struct_field(f) {
                Ok(g) => {
                    push_field(&mut out, g);
                },
                Err(e) => {
                    return Err(e);
                },
            }
        }
        Ok(VariantData { fields: out })
    }

    fn fold_variants(&mut self, variants: Vec<Variant>) -> (r: Result<Vec<Variant>, CheckError>)
        requires
            old(self).wf(),
        ensures
            match folded_variants(old(self)@, variants_view(variants@), 0, Seq::empty()) {
                Ok((out, c)) => r matches Ok(x) && variants_view(x@) == out && final(self)@ == c
                    && final(self).scope_stack.len() == old(self).scope_stack.len(),
                Err(e) => r matches Err(x) && x == e,
            },
    {
        let ghost all = variants@;
        let mut out: Vec<Variant> = Vec::new();
        assert(variants_view(out@) =~= Seq::empty());
        for v in it: variants
            invariant
                it.seq() == all,
                self.scope_stack.len() == old(self).scope_stack.len(),
                self.wf(),
                folded_variants(old(self)@, variants_view(all), 0, Seq::empty()) == folded_variants(
                    self@,
                    variants_view(all),
                    it.index() as int,
                    variants_view(out@),
                ),
        {
            assert(variants_view(all)[it.index() as int] == v@);
            let Variant { ident, data } = v;
            match self.fold_variant_data(data) {
                Ok(d) => {
                    push_variant(&mut out, Variant { ident, data: d });
                },
                Err(e) => {
                    return Err(e);
                },
            }
        }
        Ok(out)
    }

    /// Passes one foreign declaration: a foreign type leaves its hash
    /// implementation pending.
    pub fn fold_foreign_item(&mut self, ni: ForeignItem) -> (r: ForeignItem)
        requires
            old(self).wf(),
        ensures
            r == ni,
            final(self)@ == after_foreign_item(old(self)@, ni@),
            final(self).scope_stack.len() == old(self).scope_stack.len(),
    {
        match ni.kind {
            ForeignKind::Type => {
                let hash_fn_name = String::from_str("__c2rust_hash_").concat(ni.ident.as_str());
                let item = Item {
                    ident: ni.ident.clone(),
                    attrs: Vec::new(),
                    span: ni.span,
                    kind: ItemKind::HashImpl(HashBody::Foreign(hash_fn_name)),
                };
                assert(item@.attrs =~= Seq::empty());
                push_item(&mut self.pending_items, item);
            },
            ForeignKind::Other => {},
        }
        ni
    }

    fn fold_foreign_items(&mut self, items: Vec<ForeignItem>) -> (r: Vec<ForeignItem>)
        requires
            old(self).wf(),
        ensures
            foreign_items_view(r@) == foreign_items_view(items@),
            final(self)@ == after_foreign_items(old(self)@, foreign_items_view(items@), 0),
            final(self).scope_stack.len() == old(self).scope_stack.len(),
    {
        let ghost all = items@;
        let mut out: Vec<ForeignItem> = Vec::new();
        assert(foreign_items_view(out@) =~= foreign_items_view(all).take(0));
        for f in it: items
            invariant
                it.seq() == all,
                self.scope_stack.len() == old(self).scope_stack.len(),
                self.wf(),
                foreign_items_view(out@) == foreign_items_view(all).take(it.index() as int),
                after_foreign_items(old(self)@, foreign_items_view(all), 0) == after_foreign_items(
                    self@,
                    foreign_items_view(all),
                    it.index() as int,
                ),
        {
            assert(foreign_items_view(all)[it.index() as int] == f@);
            let g = self.fold_foreign_item(f);
            let ghost before = foreign_items_view(out@);
            push_foreign_item(&mut out, g);
            assert(before.push(g@) =~= foreign_items_view(all).take(it.index() + 1));
        }
        assert(foreign_items_view(all).take(all.len() as int) =~= foreign_items_view(all));
        out
    }

    /// Resolves the scope of an item under the innermost scope.
    pub fn build_new_scope(&self, item: &Item) -> (r: Result<ScopeConfig<'a>, CheckError>)
        requires
            self.wf(),
        ensures
            scope_result(r) == new_scope(self@, item@),
    {
        let span = match &item.kind {
            ItemKind::Mod(inner, _) => *inner,
            _ => item.span,
        };
        let last_scope = self.last_scope();
        let mod_file_name = self.cx.span_to_filename(span);
        let same_file = last_scope.same_file(mod_file_name.as_str());
        // Check if there are any file-level defaults, and if so, apply them
        let file_defaults_config = if !same_file {
            self.external.file_defaults_config(&mod_file_name)
        } else {
            None
        };
        let mut new_config = match &file_defaults_config {
            Some(cfg) => cfg.inherit(&item.kind),
            None => self.config().inherit(&item.kind),
        };
        assert(new_config@ == resolved(baseline(self@, mod_file_name@), item@.kind, None, None));
        let ghost start = new_config@;
        match find_cross_check_attr(&item.attrs) {
            Some(attr) => match parse_attr_config(attr) {
                Ok(s) => {
                    new_config.merge(&s);
                },
                Err(e) => {
                    return Err(e);
                },
            },
            None => {},
        }
        // An implementation block is filed under its type
        let item_name: &String = match &item.kind {
            ItemKind::Impl(ty, _) => ty,
            _ => &item.ident,
        };
        let item_xcfg_config = last_scope.get_item_config(item_name.as_str());
        match item_xcfg_config {
            Some(xcfg) => {
                new_config.merge(&xcfg.settings);
            },
            None => {},
        }
        if !same_file {
            // A file changes only at the top of a module
            match &item.kind {
                ItemKind::Mod(_, _) => Ok(ScopeConfig::new(self.external, mod_file_name, new_config)),
                _ => Err(CheckError::FileBoundary),
            }
        } else {
            Ok(last_scope.from_item(item_xcfg_config, new_config))
        }
    }
}

/// What a step of the engine owes: on success the rewritten node and the
/// engine's state as the definition gives them, with the scope stack as
/// deep as before; else the error that the definition gives.
impl<'a> CrossChecker<'a> {
    /// Rewrites an expression and the statements inside it.
    pub fn fold_expr(&mut self, expr: Expr) -> (r: Result<Expr, CheckError>)
        requires
            old(self).wf(),
        ensures
            match folded_expr(old(self)@, expr@) {
                Ok((out, c)) => r matches Ok(x) && x@ == out && final(self)@ == c
                    && final(self).scope_stack.len() == old(self).scope_stack.len(),
                Err(e) => r matches Err(x) && x == e,
            },
        decreases expr, 0nat,
    {
        self.record_scope(expr.span);
        let Expr { span, kind } = expr;
        match kind {
            ExprKind::Compound(t, parts) => match self.fold_exprs(parts) {
                Ok(ps) => Ok(Expr { span, kind: ExprKind::Compound(t, ps) }),
                Err(e) => Err(e),
            },
            ExprKind::Block(b) => match self.fold_block(b) {
                Ok(b2) => Ok(Expr { span, kind: ExprKind::Block(b2) }),
                Err(e) => Err(e),
            },
            other => Ok(Expr { span, kind: other }),
        }
    }

    fn fold_exprs(&mut self, parts: Vec<Expr>) -> (r: Result<Vec<Expr>, CheckError>)
        requires
            old(self).wf(),
        ensures
            match folded_exprs(old(self)@, exprs_view(parts@), 0, Seq::empty()) {
                Ok((out, c)) => r matches Ok(x) && exprs_view(x@) == out && final(self)@ == c
                    && final(self).scope_stack.len() == old(self).scope_stack.len(),
                Err(e) => r matches Err(x) && x == e,
            },
        decreases parts, 0nat,
    {
        let ghost whole = parts;
        let ghost all = parts@;
        let mut out: Vec<Expr> = Vec::new();
        assert(exprs_view(out@) =~= Seq::empty());
        for p in it: parts
            invariant
                whole == parts,
                whole@ == all,
                it.seq() == all,
                self.scope_stack.len() == old(self).scope_stack.len(),
                self.wf(),
                folded_exprs(old(self)@, exprs_view(all), 0, Seq::empty()) == folded_exprs(
                    self@,
                    exprs_view(all),
                    it.index() as int,
                    exprs_view(out@),
                ),
        {
            proof {
                assert(exprs_view(all)[it.index() as int] == p@);
                assert(p == whole[it.index() as int]);
                assert(decreases_to!(whole => whole[it.index() as int]));
            }
            match self.fold_expr(p) {
                Ok(q) => {
                    push_expr(&mut out, q);
                },
                Err(e) => {
                    return Err(e);
                },
            }
        }
        Ok(out)
    }

    /// Rewrites the statements of a block.
    pub fn fold_block(&mut self, block: Block) -> (r: Result<Block, CheckError>)
        requires
            old(self).wf(),
        ensures
            match folded_block(old(self)@, block@) {
                Ok((out, c)) => r matches Ok(x) && x@ == out && final(self)@ == c
                    && final(self).scope_stack.len() == old(self).scope_stack.len(),
                Err(e) => r matches Err(x) && x == e,
            },
        decreases block, 0nat,
    {
        let Block { stmts } = block;
        match self.fold_stmts(stmts) {
            Ok(out) => Ok(Block { stmts: out }),
            Err(e) => Err(e),
        }
    }

    fn fold_stmts(&mut self, stmts: Vec<Stmt>) -> (r: Result<Vec<Stmt>, CheckError>)
        requires
            old(self).wf(),
        ensures
            match folded_stmts(old(self)@, stmts_view(stmts@), 0, Seq::empty()) {
                Ok((out, c)) => r matches Ok(x) && stmts_view(x@) == out && final(self)@ == c
                    && final(self).scope_stack.len() == old(self).scope_stack.len(),
                Err(e) => r matches Err(x) && x == e,
            },
        decreases stmts, 0nat,
    {
        let ghost whole = stmts;
        let ghost all = stmts@;
        let mut out: Vec<Stmt> = Vec::new();
        assert(stmts_view(out@) =~= Seq::empty()) by {
            reveal_with_fuel(stmts_view, 2);
        }
        for s in it: stmts
            invariant
                whole == stmts,
                whole@ == all,
                it.seq() == all,
                self.scope_stack.len() == old(self).scope_stack.len(),
                self.wf(),
                folded_stmts(old(self)@, stmts_view(all), 0, Seq::empty()) == folded_stmts(
                    self@,
                    stmts_view(all),
                    it.index() as int,
                    stmts_view(out@),
                ),
        {
            proof {
                reveal_with_fuel(stmts_view, 2);
                assert(stmts_view(all)[it.index() as int] == s@);
                assert(s == whole[it.index() as int]);
                assert(decreases_to!(whole => whole[it.index() as int]));
            }
            match self.fold_stmt(s) {
                Ok(more) => {
                    append_stmts(&mut out, more);
                },
                Err(e) => {
                    return Err(e);
                },
            }
        }
        proof {
            reveal_with_fuel(stmts_view, 2);
            assert(stmts_view(all).len() == all.len());
        }
        Ok(out)
    }

    /// Rewrites one statement. It may become several.
    pub fn fold_stmt(&mut self, s: Stmt) -> (r: Result<Vec<Stmt>, CheckError>)
        requires
            old(self).wf(),
        ensures
            match folded_stmt(old(self)@, s@) {
                Ok((out, c)) => r matches Ok(x) && stmts_view(x@) == out && final(self)@ == c
                    && final(self).scope_stack.len() == old(self).scope_stack.len(),
                Err(e) => r matches Err(x) && x == e,
            },
        decreases s, 0nat,
    {
        let mut out: Vec<Stmt> = Vec::new();
        assert(stmts_view(out@) =~= Seq::empty()) by {
            reveal_with_fuel(stmts_view, 2);
        }
        match s {
            Stmt::Local(l) => {
                self.record_scope(l.span);
                let Local { span, pat, attrs, init } = l;
                let init = match init {
                    Some(e) => match self.fold_expr(e) {
                        Ok(e2) => Some(e2),
                        Err(err) => {
                            return Err(err);
                        },
                    },
                    None => None,
                };
                let check = if find_cross_check_attr(&attrs).is_some() {
                    match &pat {
                        Pattern::Ident(n) => Some(
                            Check { tag: CheckTag::Value, name: n.clone(), kind: CheckKind::Hash },
                        ),
                        Pattern::Other(_) => {
                            return Err(CheckError::UnsupportedPattern);
                        },
                    }
                } else {
                    None
                };
                let folded = Stmt::Local(Local { span, pat, attrs, init });
                push_stmt(&mut out, folded);
                match check {
                    Some(c) => {
                        push_stmt(&mut out, Stmt::Check(c));
                        assert(stmts_view(out@) =~= seq![folded@, Stmt::Check(c)@]);
                    },
                    None => {
                        assert(stmts_view(out@) =~= seq![folded@]);
                    },
                }
                Ok(out)
            },
            Stmt::Item(item) => {
                self.record_scope(item.span);
                match self.fold_item(item) {
                    Ok(items) => Ok(wrap_items(items)),
                    Err(e) => Err(e),
                }
            },
            Stmt::Expr(e) => {
                self.record_scope(e.span);
                match self.fold_expr(e) {
                    Ok(e2) => {
                        push_stmt(&mut out, Stmt::Expr(e2));
                        assert(stmts_view(out@) =~= seq![Stmt::Expr(e2)@]);
                        Ok(out)
                    },
                    Err(err) => Err(err),
                }
            },
            Stmt::Mac(sp, t) => {
                self.record_scope(sp);
                push_stmt(&mut out, Stmt::Mac(sp, t));
                assert(stmts_view(out@) =~= seq![s@]);
                Ok(out)
            },
            other => {
                push_stmt(&mut out, other);
                assert(stmts_view(out@) =~= seq![s@]);
                Ok(out)
            },
        }
    }

    /// Rewrites an item. It becomes itself and, behind it, the items that
    /// were pending when it was done.
    pub fn fold_item(&mut self, item: Item) -> (r: Result<Vec<Item>, CheckError>)
        requires
            old(self).wf(),
        ensures
            match folded_item(old(self)@, item@) {
                Ok((out, c)) => r matches Ok(x) && items_view(x@) == out && final(self)@ == c
                    && final(self).scope_stack.len() == old(self).scope_stack.len(),
                Err(e) => r matches Err(x) && x == e,
            },
        decreases item, 3nat,
    {
        match self.fold_item_simple(item) {
            Ok(folded) => {
                let mut res: Vec<Item> = Vec::new();
                assert(items_view(res@) =~= Seq::empty());
                push_item(&mut res, folded);
                // Add the pending items
                let ghost waiting = self.pending_items@;
                res.append(&mut self.pending_items);
                assert(items_view(res@) =~= seq![folded@] + items_view(waiting));
                assert(items_view(self.pending_items@) =~= Seq::empty());
                Ok(res)
            },
            Err(e) => Err(e),
        }
    }

    fn fold_items(&mut self, items: Vec<Item>) -> (r: Result<Vec<Item>, CheckError>)
        requires
            old(self).wf(),
        ensures
            match folded_items(old(self)@, items_view(items@), 0, Seq::empty()) {
                Ok((out, c)) => r matches Ok(x) && items_view(x@) == out && final(self)@ == c
                    && final(self).scope_stack.len() == old(self).scope_stack.len(),
                Err(e) => r matches Err(x) && x == e,
            },
        decreases items, 0nat,
    {
        let ghost whole = items;
        let ghost all = items@;
        let mut out: Vec<Item> = Vec::new();
        assert(items_view(out@) =~= Seq::empty());
        for item in it: items
            invariant
                whole == items,
                whole@ == all,
                it.seq() == all,
                self.scope_stack.len() == old(self).scope_stack.len(),
                self.wf(),
                folded_items(old(self)@, items_view(all), 0, Seq::empty()) == folded_items(
                    self@,
                    items_view(all),
                    it.index() as int,
                    items_view(out@),
                ),
        {
            proof {
                assert(items_view(all)[it.index() as int] == item@);
                assert(item == whole[it.index() as int]);
                assert(decreases_to!(whole => whole[it.index() as int]));
            }
            match self.fold_item(item) {
                Ok(more) => {
                    append_items(&mut out, more);
                },
                Err(e) => {
                    return Err(e);
                },
            }
        }
        Ok(out)
    }

    /// Rewrites a member of an implementation block: a method as the
    /// function that it is. Any other member stays as it is.
    pub fn fold_impl_item(&mut self, item: Item) -> (r: Result<Item, CheckError>)
        requires
            old(self).wf(),
        ensures
            match folded_impl_item(old(self)@, item@) {
                Ok((out, c)) => r matches Ok(x) && x@ == out && final(self)@ == c
                    && final(self).scope_stack.len() == old(self).scope_stack.len(),
                Err(e) => r matches Err(x) && x == e,
            },
        decreases item, 3nat,
    {
        let is_method = match &item.kind {
            ItemKind::Fn(_, _) => true,
            _ => false,
        };
        if is_method {
            self.fold_item_simple(item)
        } else {
            Ok(item)
        }
    }

    fn fold_impl_items(&mut self, items: Vec<Item>) -> (r: Result<Vec<Item>, CheckError>)
        requires
            old(self).wf(),
        ensures
            match folded_impl_items(old(self)@, items_view(items@), 0, Seq::empty()) {
                Ok((out, c)) => r matches Ok(x) && items_view(x@) == out && final(self)@ == c
                    && final(self).scope_stack.len() == old(self).scope_stack.len(),
                Err(e) => r matches Err(x) && x == e,
            },
        decreases items, 0nat,
    {
        let ghost whole = items;
        let ghost all = items@;
        let mut out: Vec<Item> = Vec::new();
        assert(items_view(out@) =~= Seq::empty());
        for item in it: items
            invariant
                whole == items,
                whole@ == all,
                it.seq() == all,
                self.scope_stack.len() == old(self).scope_stack.len(),
                self.wf(),
                folded_impl_items(old(self)@, items_view(all), 0, Seq::empty())
                    == folded_impl_items(
                    self@,
                    items_view(all),
                    it.index() as int,
                    items_view(out@),
                ),
        {
            proof {
                assert(items_view(all)[it.index() as int] == item@);
                assert(item == whole[it.index() as int]);
                assert(decreases_to!(whole => whole[it.index() as int]));
            }
            match self.fold_impl_item(item) {
                Ok(folded) => {
                    push_item(&mut out, folded);
                },
                Err(e) => {
                    return Err(e);
                },
            }
        }
        Ok(out)
    }

    /// Rewrites the children of an item.
    pub fn noop_fold_item_kind(&mut self, kind: ItemKind) -> (r: Result<ItemKind, CheckError>)
        requires
            old(self).wf(),
        ensures
            match folded_kind(old(self)@, kind@) {
                Ok((out, c)) => r matches Ok(x) && x@ == out && final(self)@ == c
                    && final(self).scope_stack.len() == old(self).scope_stack.len(),
                Err(e) => r matches Err(x) && x == e,
            },
        decreases kind, 0nat,
    {
        match kind {
            ItemKind::Fn(decl, body) => match self.fold_block(body) {
                Ok(b) => Ok(ItemKind::Fn(decl, b)),
                Err(e) => Err(e),
            },
            ItemKind::Mod(inner, items) => match self.fold_items(items) {
                Ok(out) => Ok(ItemKind::Mod(inner, out)),
                Err(e) => Err(e),
            },
            ItemKind::Struct(data) => match self.fold_variant_data(data) {
                Ok(d) => Ok(ItemKind::Struct(d)),
                Err(e) => Err(e),
            },
            ItemKind::Enum(variants) => match self.fold_variants(variants) {
                Ok(v) => Ok(ItemKind::Enum(v)),
                Err(e) => Err(e),
            },
            ItemKind::Union(data) => match self.fold_variant_data(data) {
                Ok(d) => Ok(ItemKind::Union(d)),
                Err(e) => Err(e),
            },
            ItemKind::Impl(ty, items) => match self.fold_impl_items(items) {
                Ok(out) => Ok(ItemKind::Impl(ty, out)),
                Err(e) => Err(e),
            },
            ItemKind::ForeignMod(items) => {
                let out = self.fold_foreign_items(items);
                Ok(ItemKind::ForeignMod(out))
            },
            other => Ok(other),
        }
    }

    fn mark_aggregate(&mut self, ident: &String, span: Span, attrs: Vec<Attribute>) -> (r: Vec<
        Attribute,
    >)
        requires
            old(self).wf(),
        ensures
            attrs_view(r@) == aggregate_attrs(config_of(old(self)@), attrs_view(attrs@)),
            final(self)@ == (if config_of(old(self)@).inherited.enabled {
                exported(old(self)@, ident@, span)
            } else {
                old(self)@
            }),
            final(self).scope_stack.len() == old(self).scope_stack.len(),
    {
        let mut item_attrs = attrs;
        if self.config().inherited.enabled {
            push_attr(&mut item_attrs, Attribute::DeriveHash);
            let attr_args = self.build_hash_attr_args();
            if attr_args.len() > 0 {
                push_attr(&mut item_attrs, Attribute::HashConfig(attr_args));
            }
            assert(attrs_view(item_attrs@) =~= aggregate_attrs(
                config_of(old(self)@),
                attrs_view(attrs@),
            ));
            self.export_c_hash_function(ident, span);
        }
        item_attrs
    }

    /// Rewrites an item under the innermost scope, which is its own: first
    /// its children, then the item itself by its kind.
    pub fn internal_fold_item_simple(&mut self, item: Item) -> (r: Result<Item, CheckError>)
        requires
            old(self).wf(),
        ensures
            match folded_item_inner(old(self)@, item@) {
                Ok((out, c)) => r matches Ok(x) && x@ == out && final(self)@ == c
                    && final(self).scope_stack.len() == old(self).scope_stack.len(),
                Err(e) => r matches Err(x) && x == e,
            },
        decreases item, 1nat,
    {
        let Item { ident, attrs, span, kind } = item;
        let folded = match self.noop_fold_item_kind(kind) {
            Ok(k) => k,
            Err(e) => {
                return Err(e);
            },
        };
        match folded {
            ItemKind::Fn(decl, block) => match self.build_function_xchecks(&ident, &decl, block) {
                Ok(checked_block) => Ok(
                    Item { ident, attrs, span, kind: ItemKind::Fn(decl, checked_block) },
                ),
                Err(e) => Err(e),
            },
            ItemKind::Union(data) => {
                let union_hash_impl = self.build_union_hash(&ident, span);
                push_item(&mut self.pending_items, union_hash_impl);
                self.export_c_hash_function(&ident, span);
                Ok(Item { ident, attrs, span, kind: ItemKind::Union(data) })
            },
            ItemKind::Enum(variants) => {
                let item_attrs = self.mark_aggregate(&ident, span, attrs);
                Ok(Item { ident, attrs: item_attrs, span, kind: ItemKind::Enum(variants) })
            },
            ItemKind::Struct(data) => {
                let item_attrs = self.mark_aggregate(&ident, span, attrs);
                Ok(Item { ident, attrs: item_attrs, span, kind: ItemKind::Struct(data) })
            },
            ItemKind::Mac(tokens) => {
                self.record_scope(span);
                Ok(Item { ident, attrs, span, kind: ItemKind::Mac(tokens) })
            },
            other => Ok(Item { ident, attrs, span, kind: other }),
        }
    }

    /// Rewrites an item under a scope of its own, which lasts while the
    /// item is rewritten.
    pub fn fold_item_simple(&mut self, item: Item) -> (r: Result<Item, CheckError>)
        requires
            old(self).wf(),
        ensures
            match folded_item_simple(old(self)@, item@) {
                Ok((out, c)) => r matches Ok(x) && x@ == out && final(self)@ == c
                    && final(self).scope_stack.len() == old(self).scope_stack.len(),
                Err(e) => r matches Err(x) && x == e,
            },
        decreases item, 2nat,
    {
        if self.skip_first_scope {
            // The first item is rewritten under the scope that is there
            self.skip_first_scope = false;
            self.internal_fold_item_simple(item)
        } else {
            let new_scope = match self.build_new_scope(&item) {
                Ok(s) => s,
                Err(e) => {
                    return Err(e);
                },
            };
            self.scope_stack.push(new_scope);
            assert(self@ == pushed(old(self)@, new_scope@)) by {
                assert(self@.scopes =~= old(self)@.scopes.push(new_scope@));
            }
            match self.internal_fold_item_simple(item) {
                Ok(new_item) => {
                    let ghost before = self@;
                    self.scope_stack.pop();
                    assert(self@ == popped(before)) by {
                        assert(self@.scopes =~= before.scopes.drop_last());
                    }
                    Ok(new_item)
                },
                Err(e) => Err(e),
            }
        }
    }

    /// Passes a macro invocation. Its tokens are not looked into.
    pub fn fold_mac(&mut self, mac: String) -> (r: String)
        ensures
            r == mac,
            *final(self) == *old(self),
    {
        mac
    }
}

fn wrap_items(items: Vec<Item>) -> (r: Vec<Stmt>)
    ensures
        stmts_view(r@) == item_stmts(items_view(items@)),
{
    let ghost all = items@;
    let mut out: Vec<Stmt> = Vec::new();
    assert(stmts_view(out@) =~= item_stmts(items_view(all)).take(0)) by {
        reveal_with_fuel(stmts_view, 2);
    }
    for item in it: items
        invariant
            it.seq() == all,
            stmts_view(out@) == item_stmts(items_view(all)).take(it.index() as int),
    {
        assert(items_view(all)[it.index() as int] == item@);
        let ghost before = stmts_view(out@);
        push_stmt(&mut out, Stmt::Item(item));
        assert(before.push(Stmt::Item(item)@) =~= item_stmts(items_view(all)).take(it.index() + 1));
    }
    assert(item_stmts(items_view(all)).take(all.len() as int) =~= item_stmts(items_view(all)));
    out
}

/// The view of an optional item.
pub open spec fn opt_item(i: Option<Item>) -> Option<ItemView> {
    match i {
        Some(i) => Some(i@),
        None => None,
    }
}

/// The view of a scope that was resolved, or of the error instead.
pub open spec fn scope_result(r: Result<ScopeConfig, CheckError>) -> Result<ScopeView, CheckError> {
    match r {
        Ok(s) => Ok(s@),
        Err(e) => Err(e),
    }
}

fn strip_cross_check(attrs: Vec<Attribute>) -> (r: Vec<Attribute>)
    ensures
        attrs_view(r@) == kept_attrs(attrs_view(attrs@), 0, Seq::empty()),
{
    let ghost all = attrs@;
    let mut out: Vec<Attribute> = Vec::new();
    assert(attrs_view(out@) =~= Seq::empty());
    for a in it: attrs
        invariant
            it.seq() == all,
            kept_attrs(attrs_view(all), 0, Seq::empty()) == kept_attrs(
                attrs_view(all),
                it.index() as int,
                attrs_view(out@),
            ),
    {
        assert(attrs_view(all)[it.index() as int] == a@);
        if !attr_is_cross_check(&a) {
            push_attr(&mut out, a);
        }
    }
    out
}

/// The view of an optional check.
pub open spec fn opt_check(c: Option<Check>) -> Option<CheckView> {
    match c {
        Some(c) => Some(c@),
        None => None,
    }
}

fn add_stmt(out: &mut Vec<Stmt>, s: Stmt)
    ensures
        stmts_view(final(out)@) == stmts_view(old(out)@) + seq![s@],
{
    push_stmt(out, s);
    assert(stmts_view(old(out)@).push(s@) =~= stmts_view(old(out)@) + seq![s@]);
}

fn add_check(out: &mut Vec<Stmt>, c: Option<Check>)
    ensures
        stmts_view(final(out)@) == stmts_view(old(out)@) + opt_stmt(opt_check(c)),
{
    match c {
        Some(c) => {
            add_stmt(out, Stmt::Check(c));
        },
        None => {
            assert(stmts_view(out@) =~= stmts_view(out@) + opt_stmt(None));
        },
    }
}

} // verus!
