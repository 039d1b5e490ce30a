//! Where instrumentation starts: a check directive that is met on an item.
//!
//! The directive may stand at the top of what is to be instrumented. Or it
//! may stand on an item that is met out of its context, since a macro
//! produced it while an instrumentation was under way; the configuration
//! that was in force where the macro was called is then recovered from the
//! span scope map.

use vstd::prelude::*;
use crate::attr::{directive_settings, parse_attr_config};
use crate::checker::CrossChecker;
use crate::config::{
    InheritedCheckConfig, InheritedView, ScopeCheckConfig, ScopeCheckView, fresh_item_config,
    merge_settings, top_config,
};
use crate::error::CheckError;
use crate::external::{ExternalConfig, FileConfigView, file_defaults, opt_config};
use crate::rewrite::{CheckerView, default_ahasher, default_shasher, folded_item};
use crate::scope::{ScopeConfig, file_scope};
use crate::span::{
    EmittedSymbols, SourceMap, SourceMapView, Span, SpanScopeMap, SpanScopeView, file_name_of,
    found_scope,
};
use crate::text::Text;
use crate::tree::{Item, ItemKind, ItemView, MetaArg, MetaArgView, items_view, push_item};

verus! {

/// What lasts from one instrumentation to the next: the external
/// configuration, the span scope map, and the names of the hash functions
/// that were exported.
#[derive(Debug, PartialEq, Eq)]
pub struct CrossCheckExpander {
    /// The external configuration.
    pub external_config: ExternalConfig,
    /// The span scope map.
    pub macro_scopes: SpanScopeMap,
    /// The exported hash functions, to prevent the emission of duplicates.
    pub c_hash_functions: EmittedSymbols,
    /// Whether hash functions with C linkage are exported for aggregates.
    pub export_c_hash: bool,
}

/// [`CrossCheckExpander`] as contracts see it.
pub struct ExpanderView {
    pub external: Seq<FileConfigView>,
    pub log: Seq<SpanScopeView>,
    pub emitted: Seq<Text>,
    pub export: bool,
}

impl View for CrossCheckExpander {
    type V = ExpanderView;

    open spec fn view(&self) -> ExpanderView {
        ExpanderView {
            external: self.external_config@,
            log: self.macro_scopes@,
            emitted: self.c_hash_functions@,
            export: self.export_c_hash,
        }
    }
}

/// The view of an optional inherited configuration.
pub open spec fn opt_inherited(c: Option<InheritedCheckConfig>) -> Option<InheritedView> {
    match c {
        Some(c) => Some(c@),
        None => None,
    }
}

/// The configuration at the top of an instrumentation that a directive
/// starts in the file `file`: the defaults of the file where the external
/// configuration knows it, else those of the engine, with the directive's
/// own settings merged into them.
pub open spec fn top_level_config(
    external: Seq<FileConfigView>,
    file: Text,
    mi: MetaArgView,
) -> Result<ScopeCheckView, CheckError> {
    match directive_settings(mi) {
        Err(e) => Err(e),
        Ok(s) => Ok(
            merge_settings(
                match file_defaults(external, file) {
                    Some(d) => d,
                    None => top_config(),
                },
                s,
            ),
        ),
    }
}

/// The configuration of an item that is met out of its context, as a
/// child of the scope `inherited` that was recovered for it: the
/// directive's settings are merged into what it inherits.
pub open spec fn recovered_config(inherited: InheritedView, mi: MetaArgView, item: ItemView) -> Result<
    ScopeCheckView,
    CheckError,
> {
    match directive_settings(mi) {
        Err(e) => Err(e),
        Ok(s) => Ok(
            merge_settings(
                ScopeCheckView { inherited, item: fresh_item_config(item.kind) },
                s,
            ),
        ),
    }
}

/// How a directive on an item is dispatched. Where no scope is recorded
/// for the directive's location, a module starts an instrumentation at
/// the top, in which it gets a scope of its own, and any other item is
/// left alone. Where a scope is recorded, the item is instrumented under
/// the configuration recovered from it, without a further scope of its
/// own. The result is the configuration to start under and whether the
/// first scope is skipped.
pub open spec fn dispatch(
    x: ExpanderView,
    map: SourceMapView,
    sp: Span,
    mi: MetaArgView,
    item: ItemView,
) -> Result<Option<(ScopeCheckView, bool)>, CheckError> {
    match found_scope(x.log, map, sp) {
        None => if item.kind is Mod {
            match top_level_config(x.external, file_name_of(map, sp), mi) {
                Ok(c) => Ok(Some((c, false))),
                Err(e) => Err(e),
            }
        } else {
            Ok(None)
        },
        Some(inherited) => match recovered_config(inherited, mi, item) {
            Ok(c) => Ok(Some((c, true))),
            Err(e) => Err(e),
        },
    }
}

/// The engine that an instrumentation starts with.
pub open spec fn start_checker(
    x: ExpanderView,
    map: SourceMapView,
    sp: Span,
    config: ScopeCheckView,
    skip_first: bool,
) -> CheckerView {
    CheckerView {
        external: x.external,
        map,
        scopes: seq![file_scope(x.external, file_name_of(map, sp), config)],
        default_ahasher: default_ahasher(),
        default_shasher: default_shasher(),
        pending: Seq::empty(),
        skip_first,
        export: x.export,
        log: x.log,
        emitted: x.emitted,
    }
}

/// What a directive on an item yields: the items that take the item's
/// place, and what lasts to the next instrumentation.
pub open spec fn expanded(
    x: ExpanderView,
    map: SourceMapView,
    sp: Span,
    mi: MetaArgView,
    item: ItemView,
) -> Result<(Seq<ItemView>, ExpanderView), CheckError> {
    match dispatch(x, map, sp, mi, item) {
        Err(e) => Err(e),
        Ok(None) => Ok((seq![item], x)),
        Ok(Some((config, skip_first))) => match folded_item(
            start_checker(x, map, sp, config, skip_first),
            item,
        ) {
            Ok((out, c)) => Ok(
                (
                    out,
                    ExpanderView {
                        external: x.external,
                        log: c.log,
                        emitted: c.emitted,
                        export: x.export,
                    },
                ),
            ),
            Err(e) => Err(e),
        },
    }
}

impl CrossCheckExpander {
    /// An expander that has instrumented nothing yet.
    pub fn new(external_config: ExternalConfig, export_c_hash: bool) -> (r: CrossCheckExpander)
        ensures
            r@ == (ExpanderView {
                external: external_config@,
                log: Seq::empty(),
                emitted: Seq::empty(),
                export: export_c_hash,
            }),
    {
        CrossCheckExpander {
            external_config,
            macro_scopes: SpanScopeMap::new(),
            c_hash_functions: EmittedSymbols::new(),
            export_c_hash,
        }
    }

    /// Records that the inherited part of `config` is in force at `sp`.
    pub fn insert_macro_scope(&mut self, sp: Span, config: &ScopeCheckConfig)
        ensures
            final(self)@ == (ExpanderView {
                log: old(self)@.log.push(SpanScopeView { span: sp, config: config@.inherited }),
                ..old(self)@
            }),
    {
        self.macro_scopes.record(sp, config.inherited.clone());
    }

    /// Span lookup: the configuration recorded for `sp` or, failing that,
    /// for the nearest place from which the text at `sp` was expanded.
    pub fn find_span_scope(&self, cx: &SourceMap, sp: Span) -> (r: Option<InheritedCheckConfig>)
        ensures
            opt_inherited(r) == found_scope(self@.log, cx@, sp),
    {
        match self.macro_scopes.lookup(cx, sp) {
            Some(c) => Some(c.clone()),
            None => None,
        }
    }

    /// The configuration that the file `file_name` starts from, if the
    /// external configuration knows the file.
    pub fn build_file_defaults_config(&self, file_name: &str) -> (r: Option<ScopeCheckConfig>)
        ensures
            opt_config(r) == file_defaults(self@.external, file_name@),
    {
        let name = String::from_str(file_name);
        self.external_config.file_defaults_config(&name)
    }

    /// Handles the check directive `mi`, met at `sp` on `item`. Returns the
    /// items that take the item's place.
    pub fn expand(&mut self, cx: &SourceMap, sp: Span, mi: &MetaArg, item: Item) -> (r: Result<
        Vec<Item>,
        CheckError,
    >)
        ensures
            match expanded(old(self)@, cx@, sp, mi@, item@) {
                Ok((out, x)) => r matches Ok(v) && items_view(v@) == out && final(self)@ == x,
                Err(e) => r matches Err(v) && v == e,
            },
    {
        let span_scope = self.find_span_scope(cx, sp);
        let file_name = cx.span_to_filename(sp);
        let (config, skip_first_scope) = match span_scope {
            None => {
                let is_mod = match &item.kind {
                    ItemKind::Mod(_, _) => true,
                    _ => false,
                };
                if !is_mod {
                    // Left to the instrumentation of the module around it
                    let mut res: Vec<Item> = Vec::new();
                    assert(items_view(res@) =~= Seq::empty());
                    push_item(&mut res, item);
                    assert(items_view(res@) =~= seq![item@]);
                    return Ok(res);
                }
                let settings = match parse_attr_config(mi) {
                    Ok(s) => s,
                    Err(e) => {
                        return Err(e);
                    },
                };
                let mut top_config = match self.external_config.file_defaults_config(&file_name) {
                    Some(c) => c,
                    None => ScopeCheckConfig::new(),
                };
                top_config.merge(&settings);
                (top_config, false)
            },
            Some(scope_config) => {
                let settings = match parse_attr_config(mi) {
                    Ok(s) => s,
                    Err(e) => {
                        return Err(e);
                    },
                };
                let mut config = ScopeCheckConfig::from_item(&item.kind, scope_config);
                config.merge(&settings);
                (config, true)
            },
        };
        let mut macro_scopes = SpanScopeMap::new();
        let mut c_hash_functions = EmittedSymbols::new();
        core::mem::swap(&mut macro_scopes, &mut self.macro_scopes);
        core::mem::swap(&mut c_hash_functions, &mut self.c_hash_functions);
        let scope = ScopeConfig::new(&self.external_config, file_name, config);
        let mut checker = CrossChecker::new(
            &self.external_config,
            cx,
            scope,
            skip_first_scope,
            self.export_c_hash,
            macro_scopes,
            c_hash_functions,
        );
        let r = checker.fold_item(item);
        let CrossChecker { macro_scopes, c_hash_functions, .. } = checker;
        self.macro_scopes = macro_scopes;
        self.c_hash_functions = c_hash_functions;
        r
    }
}

} // verus!
