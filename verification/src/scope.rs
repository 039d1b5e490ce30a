//! The configuration of one scope of the syntax tree: an item, or a file.

use vstd::prelude::*;
use crate::config::{ScopeCheckConfig, ScopeCheckView};
use crate::external::{
    ExternalConfig, FileConfigView, ItemEntry, ItemEntryView, entries_view, file_items, find_named,
    named_entry,
};
use crate::text::{Text, str_is};

verus! {

/// One frame of the scope stack.
#[derive(Debug, PartialEq, Eq)]
pub struct ScopeConfig<'a> {
    /// The file in which the scope lies.
    pub file_name: String,
    /// The external entries among which the items of this scope are looked
    /// up by name, if there are any.
    pub items: Option<&'a Vec<ItemEntry>>,
    /// The resolved configuration of the scope.
    pub check_config: ScopeCheckConfig,
    /// The position of the next field without a name, where the scope is
    /// an aggregate.
    pub field_idx: usize,
}

/// [`ScopeConfig`] as contracts see it.
pub struct ScopeView {
    pub file_name: Text,
    pub items: Option<Seq<ItemEntryView>>,
    pub check_config: ScopeCheckView,
    pub field_idx: usize,
}

impl<'a> View for ScopeConfig<'a> {
    type V = ScopeView;

    open spec fn view(&self) -> ScopeView {
        ScopeView {
            file_name: self.file_name@,
            items: match self.items {
                Some(v) => Some(entries_view(v@)),
                None => None,
            },
            check_config: self.check_config@,
            field_idx: self.field_idx,
        }
    }
}

/// The views of the frames of a scope stack.
pub open spec fn scopes_view(s: Seq<ScopeConfig>) -> Seq<ScopeView> {
    Seq::new(s.len(), |i: int| s[i]@)
}

/// The external entry that a scope holds for the item `name`.
pub open spec fn scope_entry(scope: ScopeView, name: Text) -> Option<ItemEntryView> {
    match scope.items {
        Some(items) => named_entry(items, name),
        None => None,
    }
}

/// The scope of a file: it looks its items up among the entries that the
/// external configuration holds for the file.
pub open spec fn file_scope(external: Seq<FileConfigView>, file_name: Text, ccc: ScopeCheckView) -> ScopeView {
    ScopeView {
        file_name,
        items: file_items(external, file_name),
        check_config: ccc,
        field_idx: 0,
    }
}

/// The scope of an item inside `parent`: it stays in the parent's file and
/// looks its own items up among those nested in its external entry.
pub open spec fn item_scope(parent: ScopeView, entry: Option<ItemEntryView>, ccc: ScopeCheckView) -> ScopeView {
    ScopeView {
        file_name: parent.file_name,
        items: match entry {
            Some(e) => Some(e.nested),
            None => None,
        },
        check_config: ccc,
        field_idx: 0,
    }
}

/// The view of an optional entry.
pub open spec fn opt_entry(e: Option<&ItemEntry>) -> Option<ItemEntryView> {
    match e {
        Some(e) => Some(e@),
        None => None,
    }
}

impl<'a> ScopeConfig<'a> {
    /// The scope of the file `file_name` under the configuration `ccc`.
    pub fn new(cfg: &'a ExternalConfig, file_name: String, ccc: ScopeCheckConfig) -> (r: ScopeConfig<'a>)
        ensures
            r@ == file_scope(cfg@, file_name@, ccc@),
    {
        let items = cfg.get_file_items(&file_name);
        ScopeConfig { file_name, items, check_config: ccc, field_idx: 0 }
    }

    /// The external entry for the item `item` of this scope.
    pub fn get_item_config(&self, item: &str) -> (r: Option<&'a ItemEntry>)
        ensures
            opt_entry(r) == scope_entry(self@, item@),
    {
        match self.items {
            Some(items) => {
                let name = String::from_str(item);
                find_named(items, &name)
            },
            None => None,
        }
    }

    /// The scope of an item inside this one, given the item's external
    /// entry and its resolved configuration.
    pub fn from_item(&self, item_config: Option<&'a ItemEntry>, ccc: ScopeCheckConfig) -> (r:
        ScopeConfig<'a>)
        ensures
            r@ == item_scope(self@, opt_entry(item_config), ccc@),
    {
        let items = match item_config {
            Some(e) => {
                assert(e@.nested == entries_view(e.nested@));
                Some(&e.nested)
            },
            None => None,
        };
        ScopeConfig { file_name: self.file_name.clone(), items, check_config: ccc, field_idx: 0 }
    }

    /// Whether the scope lies in the file `file_name`.
    pub fn same_file(&self, file_name: &str) -> (r: bool)
        ensures
            r == (self@.file_name == file_name@),
    {
        str_is(&self.file_name, file_name)
    }
}

} // verus!
