//! The checking configuration of one scope, and how settings are merged
//! into it.

use vstd::prelude::*;
use crate::directive::{
    CheckDirective, DirectiveView, FieldDirective, FieldDirectiveView, extend_table, opt_directive,
    table_view,
};
use crate::text::{Text, clone_opt, opt_text, texts};
use crate::tree::{ItemKind, ItemKindView};

verus! {

/// Settings as one source gives them: an inline directive, or an entry of
/// the external configuration. What the source leaves out is absent here,
/// and merging leaves it as it was.
#[derive(Debug, PartialEq, Eq)]
pub struct Settings {
    pub enabled: Option<bool>,
    pub entry: Option<CheckDirective>,
    pub exit: Option<CheckDirective>,
    pub all_args: Option<CheckDirective>,
    pub ret: Option<CheckDirective>,
    pub ahasher: Option<String>,
    pub shasher: Option<String>,
    /// Directives for single arguments of a function.
    pub args: Vec<FieldDirective>,
    /// Expressions checked besides the entry check of a function.
    pub entry_extra: Vec<String>,
    /// Expressions checked besides the exit check of a function.
    pub exit_extra: Vec<String>,
    /// The hasher that merges the fields of an aggregate.
    pub field_hasher: Option<String>,
    /// The expression that hashes an aggregate as a whole.
    pub custom_hash: Option<String>,
    /// Directives for single fields of an aggregate.
    pub fields: Vec<FieldDirective>,
}

/// [`Settings`] as contracts see it.
pub struct SettingsView {
    pub enabled: Option<bool>,
    pub entry: Option<DirectiveView>,
    pub exit: Option<DirectiveView>,
    pub all_args: Option<DirectiveView>,
    pub ret: Option<DirectiveView>,
    pub ahasher: Option<Text>,
    pub shasher: Option<Text>,
    pub args: Seq<FieldDirectiveView>,
    pub entry_extra: Seq<Text>,
    pub exit_extra: Seq<Text>,
    pub field_hasher: Option<Text>,
    pub custom_hash: Option<Text>,
    pub fields: Seq<FieldDirectiveView>,
}

impl View for Settings {
    type V = SettingsView;

    open spec fn view(&self) -> SettingsView {
        SettingsView {
            enabled: self.enabled,
            entry: opt_directive(self.entry),
            exit: opt_directive(self.exit),
            all_args: opt_directive(self.all_args),
            ret: opt_directive(self.ret),
            ahasher: opt_text(self.ahasher),
            shasher: opt_text(self.shasher),
            args: table_view(self.args@),
            entry_extra: texts(self.entry_extra@),
            exit_extra: texts(self.exit_extra@),
            field_hasher: opt_text(self.field_hasher),
            custom_hash: opt_text(self.custom_hash),
            fields: table_view(self.fields@),
        }
    }
}

/// Settings that leave everything as it was.
pub open spec fn no_settings() -> SettingsView {
    SettingsView {
        enabled: None,
        entry: None,
        exit: None,
        all_args: None,
        ret: None,
        ahasher: None,
        shasher: None,
        args: Seq::empty(),
        entry_extra: Seq::empty(),
        exit_extra: Seq::empty(),
        field_hasher: None,
        custom_hash: None,
        fields: Seq::empty(),
    }
}

impl Settings {
    /// Settings that leave everything as it was.
    pub fn new() -> (r: Settings)
        ensures
            r@ == no_settings(),
    {
        let r = Settings {
            enabled: None,
            entry: None,
            exit: None,
            all_args: None,
            ret: None,
            ahasher: None,
            shasher: None,
            args: Vec::new(),
            entry_extra: Vec::new(),
            exit_extra: Vec::new(),
            field_hasher: None,
            custom_hash: None,
            fields: Vec::new(),
        };
        assert(r@.args =~= Seq::empty());
        assert(r@.fields =~= Seq::empty());
        assert(r@.entry_extra =~= Seq::empty());
        assert(r@.exit_extra =~= Seq::empty());
        r
    }
}

/// The part of a scope's configuration that its descendants inherit.
#[derive(Debug, PartialEq, Eq)]
pub struct InheritedCheckConfig {
    /// Whether anything is checked at all.
    pub enabled: bool,
    pub entry: CheckDirective,
    pub exit: CheckDirective,
    /// The directive for arguments that have none of their own.
    pub all_args: CheckDirective,
    pub ret: CheckDirective,
    /// The aggregate hasher. Absent: the engine's default.
    pub ahasher: Option<String>,
    /// The simple hasher. Absent: the engine's default.
    pub shasher: Option<String>,
}

/// [`InheritedCheckConfig`] as contracts see it.
pub struct InheritedView {
    pub enabled: bool,
    pub entry: DirectiveView,
    pub exit: DirectiveView,
    pub all_args: DirectiveView,
    pub ret: DirectiveView,
    pub ahasher: Option<Text>,
    pub shasher: Option<Text>,
}

impl View for InheritedCheckConfig {
    type V = InheritedView;

    open spec fn view(&self) -> InheritedView {
        InheritedView {
            enabled: self.enabled,
            entry: self.entry@,
            exit: self.exit@,
            all_args: self.all_args@,
            ret: self.ret@,
            ahasher: opt_text(self.ahasher),
            shasher: opt_text(self.shasher),
        }
    }
}

/// The configuration in force where nothing was configured: checks are
/// enabled, every check is the standard one, the hashers are the engine's.
pub open spec fn default_inherited() -> InheritedView {
    InheritedView {
        enabled: true,
        entry: DirectiveView::Default,
        exit: DirectiveView::Default,
        all_args: DirectiveView::Default,
        ret: DirectiveView::Default,
        ahasher: None,
        shasher: None,
    }
}

/// `base` with the fields that `s` gives replaced by what it gives.
pub open spec fn merge_inherited(base: InheritedView, s: SettingsView) -> InheritedView {
    InheritedView {
        enabled: match s.enabled {
            Some(b) => b,
            None => base.enabled,
        },
        entry: match s.entry {
            Some(d) => d,
            None => base.entry,
        },
        exit: match s.exit {
            Some(d) => d,
            None => base.exit,
        },
        all_args: match s.all_args {
            Some(d) => d,
            None => base.all_args,
        },
        ret: match s.ret {
            Some(d) => d,
            None => base.ret,
        },
        ahasher: match s.ahasher {
            Some(h) => Some(h),
            None => base.ahasher,
        },
        shasher: match s.shasher {
            Some(h) => Some(h),
            None => base.shasher,
        },
    }
}

fn pick_directive(base: &CheckDirective, over: &Option<CheckDirective>) -> (r: CheckDirective)
    ensures
        r == (match *over {
            Some(d) => d,
            None => *base,
        }),
{
    match over {
        Some(d) => d.clone(),
        None => base.clone(),
    }
}

fn pick_text(base: &Option<String>, over: &Option<String>) -> (r: Option<String>)
    ensures
        r == (match *over {
            Some(h) => Some(h),
            None => *base,
        }),
{
    match over {
        Some(h) => Some(h.clone()),
        None => clone_opt(base),
    }
}

impl Clone for InheritedCheckConfig {
    fn clone(&self) -> (r: Self)
        ensures
            r == *self,
    {
        InheritedCheckConfig {
            enabled: self.enabled,
            entry: self.entry.clone(),
            exit: self.exit.clone(),
            all_args: self.all_args.clone(),
            ret: self.ret.clone(),
            ahasher: clone_opt(&self.ahasher),
            shasher: clone_opt(&self.shasher),
        }
    }
}

impl InheritedCheckConfig {
    /// The configuration in force where nothing was configured.
    pub fn new() -> (r: InheritedCheckConfig)
        ensures
            r@ == default_inherited(),
    {
        InheritedCheckConfig {
            enabled: true,
            entry: CheckDirective::Default,
            exit: CheckDirective::Default,
            all_args: CheckDirective::Default,
            ret: CheckDirective::Default,
            ahasher: None,
            shasher: None,
        }
    }

    /// A new record: this one with the fields that `s` gives replaced. The
    /// record itself is left as it is, for the scopes that share it.
    pub fn merged(&self, s: &Settings) -> (r: InheritedCheckConfig)
        ensures
            r@ == merge_inherited(self@, s@),
    {
        InheritedCheckConfig {
            enabled: match s.enabled {
                Some(b) => b,
                None => self.enabled,
            },
            entry: pick_directive(&self.entry, &s.entry),
            exit: pick_directive(&self.exit, &s.exit),
            all_args: pick_directive(&self.all_args, &s.all_args),
            ret: pick_directive(&self.ret, &s.ret),
            ahasher: pick_text(&self.ahasher, &s.ahasher),
            shasher: pick_text(&self.shasher, &s.shasher),
        }
    }
}

/// What is configured for one function and not inherited.
#[derive(Debug, PartialEq, Eq)]
pub struct FunctionCheckConfig {
    pub args: Vec<FieldDirective>,
    pub entry_extra: Vec<String>,
    pub exit_extra: Vec<String>,
}

/// [`FunctionCheckConfig`] as contracts see it.
pub struct FunctionConfigView {
    pub args: Seq<FieldDirectiveView>,
    pub entry_extra: Seq<Text>,
    pub exit_extra: Seq<Text>,
}

impl View for FunctionCheckConfig {
    type V = FunctionConfigView;

    open spec fn view(&self) -> FunctionConfigView {
        FunctionConfigView {
            args: table_view(self.args@),
            entry_extra: texts(self.entry_extra@),
            exit_extra: texts(self.exit_extra@),
        }
    }
}

/// What is configured for one aggregate and not inherited.
#[derive(Debug, PartialEq, Eq)]
pub struct StructCheckConfig {
    pub custom_hash: Option<String>,
    pub field_hasher: Option<String>,
    pub fields: Vec<FieldDirective>,
}

/// [`StructCheckConfig`] as contracts see it.
pub struct StructConfigView {
    pub custom_hash: Option<Text>,
    pub field_hasher: Option<Text>,
    pub fields: Seq<FieldDirectiveView>,
}

impl View for StructCheckConfig {
    type V = StructConfigView;

    open spec fn view(&self) -> StructConfigView {
        StructConfigView {
            custom_hash: opt_text(self.custom_hash),
            field_hasher: opt_text(self.field_hasher),
            fields: table_view(self.fields@),
        }
    }
}

/// The configuration that belongs to one item alone.
#[derive(Debug, PartialEq, Eq)]
pub enum ItemCheckConfig {
    /// The top of a file.
    Top,
    Function(FunctionCheckConfig),
    Struct(StructCheckConfig),
    /// An item that is neither a function nor an aggregate.
    Other,
}

/// [`ItemCheckConfig`] as contracts see it.
pub enum ItemConfigView {
    Top,
    Function(FunctionConfigView),
    Struct(StructConfigView),
    Other,
}

impl View for ItemCheckConfig {
    type V = ItemConfigView;

    open spec fn view(&self) -> ItemConfigView {
        match self {
            ItemCheckConfig::Top => ItemConfigView::Top,
            ItemCheckConfig::Function(f) => ItemConfigView::Function(f@),
            ItemCheckConfig::Struct(s) => ItemConfigView::Struct(s@),
            ItemCheckConfig::Other => ItemConfigView::Other,
        }
    }
}

/// The item configuration that an item of this kind starts with.
pub open spec fn fresh_item_config(kind: ItemKindView) -> ItemConfigView {
    match kind {
        ItemKindView::Fn(_, _) => ItemConfigView::Function(
            FunctionConfigView {
                args: Seq::empty(),
                entry_extra: Seq::empty(),
                exit_extra: Seq::empty(),
            },
        ),
        ItemKindView::Struct(_) | ItemKindView::Enum(_) | ItemKindView::Union(_) =>
            ItemConfigView::Struct(
            StructConfigView { custom_hash: None, field_hasher: None, fields: Seq::empty() },
        ),
        _ => ItemConfigView::Other,
    }
}

/// `item` with the settings of `s` that apply to an item of its kind: a
/// function takes the argument directives and the extra checks, an
/// aggregate the hash settings and the field directives. Lists grow, so
/// that for one argument or field the later source wins.
pub open spec fn merge_item(item: ItemConfigView, s: SettingsView) -> ItemConfigView {
    match item {
        ItemConfigView::Function(f) => ItemConfigView::Function(
            FunctionConfigView {
                args: f.args + s.args,
                entry_extra: f.entry_extra + s.entry_extra,
                exit_extra: f.exit_extra + s.exit_extra,
            },
        ),
        ItemConfigView::Struct(c) => ItemConfigView::Struct(
            StructConfigView {
                custom_hash: match s.custom_hash {
                    Some(h) => Some(h),
                    None => c.custom_hash,
                },
                field_hasher: match s.field_hasher {
                    Some(h) => Some(h),
                    None => c.field_hasher,
                },
                fields: c.fields + s.fields,
            },
        ),
        _ => item,
    }
}

/// The resolved configuration of one scope.
#[derive(Debug, PartialEq, Eq)]
pub struct ScopeCheckConfig {
    pub inherited: InheritedCheckConfig,
    pub item: ItemCheckConfig,
}

/// [`ScopeCheckConfig`] as contracts see it.
pub struct ScopeCheckView {
    pub inherited: InheritedView,
    pub item: ItemConfigView,
}

impl View for ScopeCheckConfig {
    type V = ScopeCheckView;

    open spec fn view(&self) -> ScopeCheckView {
        ScopeCheckView { inherited: self.inherited@, item: self.item@ }
    }
}

/// `c` after the settings `s` were merged into it.
pub open spec fn merge_settings(c: ScopeCheckView, s: SettingsView) -> ScopeCheckView {
    ScopeCheckView { inherited: merge_inherited(c.inherited, s), item: merge_item(c.item, s) }
}

/// The configuration at the top of a file for which nothing is configured.
pub open spec fn top_config() -> ScopeCheckView {
    ScopeCheckView { inherited: default_inherited(), item: ItemConfigView::Top }
}

/// Appends copies of the strings of `more` to `list`.
pub fn extend_texts(list: &mut Vec<String>, more: &Vec<String>)
    ensures
        texts(final(list)@) == texts(old(list)@) + texts(more@),
{
    let mut i: usize = 0;
    while i < more.len()
        invariant
            i <= more.len(),
            list@.len() == old(list)@.len() + i,
            texts(list@) == texts(old(list)@) + texts(more@).take(i as int),
        decreases more.len() - i,
    {
        let ghost before = list@;
        list.push(more[i].clone());
        assert(texts(list@) =~= texts(before).push(more[i as int]@));
        assert(texts(more@).take(i + 1) =~= texts(more@).take(i as int).push(more[i as int]@));
        i = i + 1;
    }
    assert(texts(more@).take(more.len() as int) =~= texts(more@));
}

impl ScopeCheckConfig {
    /// The configuration at the top of a file for which nothing is
    /// configured.
    pub fn new() -> (r: ScopeCheckConfig)
        ensures
            r@ == top_config(),
    {
        ScopeCheckConfig { inherited: InheritedCheckConfig::new(), item: ItemCheckConfig::Top }
    }

    /// The configuration that an item of the given kind starts with under
    /// the inherited record `inherited`.
    pub fn from_item(kind: &ItemKind, inherited: InheritedCheckConfig) -> (r: ScopeCheckConfig)
        ensures
            r@ == (ScopeCheckView { inherited: inherited@, item: fresh_item_config(kind@) }),
    {
        let item = match kind {
            ItemKind::Fn(_, _) => {
                let f = FunctionCheckConfig {
                    args: Vec::new(),
                    entry_extra: Vec::new(),
                    exit_extra: Vec::new(),
                };
                assert(f@.args =~= Seq::empty());
                assert(f@.entry_extra =~= Seq::empty());
                assert(f@.exit_extra =~= Seq::empty());
                ItemCheckConfig::Function(f)
            },
            ItemKind::Struct(_) | ItemKind::Enum(_) | ItemKind::Union(_) => {
                let c = StructCheckConfig {
                    custom_hash: None,
                    field_hasher: None,
                    fields: Vec::new(),
                };
                assert(c@.fields =~= Seq::empty());
                ItemCheckConfig::Struct(c)
            },
            _ => ItemCheckConfig::Other,
        };
        ScopeCheckConfig { inherited, item }
    }

    /// The configuration that an item of the given kind starts with when it
    /// inherits from this scope.
    pub fn inherit(&self, kind: &ItemKind) -> (r: ScopeCheckConfig)
        ensures
            r@ == (ScopeCheckView { inherited: self@.inherited, item: fresh_item_config(kind@) }),
    {
        ScopeCheckConfig::from_item(kind, self.inherited.clone())
    }

    /// Merges the settings of one source into this configuration: a field
    /// that `s` gives replaces the one held, a field that it leaves out
    /// stays.
    pub fn merge(&mut self, s: &Settings)
        ensures
            final(self)@ == merge_settings(old(self)@, s@),
    {
        self.inherited = self.inherited.merged(s);
        match &mut self.item {
            ItemCheckConfig::Function(f) => {
                let ghost a0 = f.args@;
                extend_table(&mut f.args, &s.args);
                extend_texts(&mut f.entry_extra, &s.entry_extra);
                extend_texts(&mut f.exit_extra, &s.exit_extra);
                proof {
                    crate::directive::lemma_table_view_add(a0, s.args@);
                }
            },
            ItemCheckConfig::Struct(c) => {
                let ghost f0 = c.fields@;
                c.custom_hash = pick_text(&c.custom_hash, &s.custom_hash);
                c.field_hasher = pick_text(&c.field_hasher, &s.field_hasher);
                extend_table(&mut c.fields, &s.fields);
                proof {
                    crate::directive::lemma_table_view_add(f0, s.fields@);
                }
            },
            _ => {},
        }
    }
}

} // verus!
