//! Configuration that is supplied from outside the source text: for each
//! file, a list of entries, each for the whole file or for one named item.

use vstd::prelude::*;
use crate::config::{
    ScopeCheckConfig, ScopeCheckView, Settings, SettingsView, merge_settings, top_config,
};
use crate::text::{Text, opt_text};

verus! {

/// One entry of a file's configuration. An entry without a name holds
/// defaults for the whole file. An entry with a name holds the settings of
/// the item of that name, and in `nested` the entries for the items inside
/// it: the members of an implementation block, filed under its type.
#[derive(Debug, PartialEq, Eq)]
pub struct ItemEntry {
    pub name: Option<String>,
    pub settings: Settings,
    pub nested: Vec<ItemEntry>,
}

/// [`ItemEntry`] as contracts see it.
pub struct ItemEntryView {
    pub name: Option<Text>,
    pub settings: SettingsView,
    pub nested: Seq<ItemEntryView>,
}

/// The views of a list of entries.
pub open spec fn entries_view(s: Seq<ItemEntry>) -> Seq<ItemEntryView>
    decreases s,
{
    Seq::new(
        s.len(),
        |i: int|
            if 0 <= i < s.len() {
                s[i]@
            } else {
                arbitrary()
            },
    )
}

impl View for ItemEntry {
    type V = ItemEntryView;

    open spec fn view(&self) -> ItemEntryView
        decreases self,
    {
        ItemEntryView {
            name: opt_text(self.name),
            settings: self.settings@,
            nested: entries_view(self.nested@),
        }
    }
}

/// The entry that a list holds for the item `name`: the last one of that
/// name, so that a later entry replaces an earlier one.
pub open spec fn named_entry(items: Seq<ItemEntryView>, name: Text) -> Option<ItemEntryView>
    decreases items.len(),
{
    if items.len() == 0 {
        None
    } else if items.last().name == Some(name) {
        Some(items.last())
    } else {
        named_entry(items.drop_last(), name)
    }
}

/// Looks the entry of the item `name` up in a list.
pub fn find_named<'a>(items: &'a Vec<ItemEntry>, name: &String) -> (r: Option<&'a ItemEntry>)
    ensures
        match r {
            Some(e) => named_entry(entries_view(items@), name@) == Some(e@),
            None => named_entry(entries_view(items@), name@).is_none(),
        },
{
    let mut i: usize = items.len();
    assert(entries_view(items@).take(i as int) == entries_view(items@));
    while i > 0
        invariant
            i <= items.len(),
            named_entry(entries_view(items@), name@) == named_entry(
                entries_view(items@).take(i as int),
                name@,
            ),
        decreases i,
    {
        let ghost cur = entries_view(items@).take(i as int);
        assert(cur.last() == items[i - 1]@);
        assert(cur.drop_last() == entries_view(items@).take(i - 1));
        let hit = match &items[i - 1].name {
            Some(n) => *n == *name,
            None => false,
        };
        if hit {
            return Some(&items[i - 1]);
        }
        i = i - 1;
    }
    assert(entries_view(items@).take(0).len() == 0);
    None
}

/// `base` after the defaults of a file were merged into it: the settings of
/// its entries without a name, in the order of the list.
pub open spec fn with_file_defaults(base: ScopeCheckView, items: Seq<ItemEntryView>) -> ScopeCheckView
    decreases items.len(),
{
    if items.len() == 0 {
        base
    } else {
        let before = with_file_defaults(base, items.drop_last());
        if items.last().name.is_none() {
            merge_settings(before, items.last().settings)
        } else {
            before
        }
    }
}

/// Merges the defaults of a file into `config`.
pub fn merge_file_defaults(config: &mut ScopeCheckConfig, items: &Vec<ItemEntry>)
    ensures
        final(config)@ == with_file_defaults(old(config)@, entries_view(items@)),
{
    let mut i: usize = 0;
    assert(entries_view(items@).take(0).len() == 0);
    while i < items.len()
        invariant
            i <= items.len(),
            config@ == with_file_defaults(old(config)@, entries_view(items@).take(i as int)),
        decreases items.len() - i,
    {
        let ghost next = entries_view(items@).take(i + 1);
        assert(next.last() == items[i as int]@);
        assert(next.drop_last() == entries_view(items@).take(i as int));
        if items[i].name.is_none() {
            config.merge(&items[i].settings);
        }
        i = i + 1;
    }
    assert(entries_view(items@).take(items.len() as int) == entries_view(items@));
}

/// The configuration of one file.
#[derive(Debug, PartialEq, Eq)]
pub struct FileConfig {
    pub name: String,
    pub items: Vec<ItemEntry>,
}

/// [`FileConfig`] as contracts see it.
pub struct FileConfigView {
    pub name: Text,
    pub items: Seq<ItemEntryView>,
}

impl View for FileConfig {
    type V = FileConfigView;

    open spec fn view(&self) -> FileConfigView {
        FileConfigView { name: self.name@, items: entries_view(self.items@) }
    }
}

/// The views of a list of files.
pub open spec fn files_view(s: Seq<FileConfig>) -> Seq<FileConfigView> {
    Seq::new(s.len(), |i: int| s[i]@)
}

/// Where a list holds the file `name`: the first place, from `from` on.
pub open spec fn file_index(files: Seq<FileConfigView>, name: Text, from: int) -> Option<int>
    decreases files.len() - from,
{
    if from < 0 || from >= files.len() {
        None
    } else if files[from].name == name {
        Some(from)
    } else {
        file_index(files, name, from + 1)
    }
}

/// The entries that a configuration holds for the file `name`.
pub open spec fn file_items(files: Seq<FileConfigView>, name: Text) -> Option<Seq<ItemEntryView>> {
    match file_index(files, name, 0) {
        Some(i) => Some(files[i].items),
        None => None,
    }
}

/// `files` with one more file: where the file is there already, its
/// entries are put behind those held for it; else the file is added.
pub open spec fn with_file(files: Seq<FileConfigView>, f: FileConfigView) -> Seq<FileConfigView> {
    match file_index(files, f.name, 0) {
        Some(i) => files.update(
            i,
            FileConfigView { name: files[i].name, items: files[i].items + f.items },
        ),
        None => files.push(f),
    }
}

/// `a` with all the files of `b`, in their order.
pub open spec fn with_files(a: Seq<FileConfigView>, b: Seq<FileConfigView>) -> Seq<FileConfigView>
    decreases b.len(),
{
    if b.len() == 0 {
        a
    } else {
        with_file(with_files(a, b.drop_last()), b.last())
    }
}

/// The whole external configuration.
#[derive(Debug, PartialEq, Eq)]
pub struct ExternalConfig {
    pub files: Vec<FileConfig>,
}

impl View for ExternalConfig {
    type V = Seq<FileConfigView>;

    open spec fn view(&self) -> Seq<FileConfigView> {
        files_view(self.files@)
    }
}

/// The configuration that a file starts from, where the external
/// configuration knows the file: the one of an unconfigured top with the
/// file's defaults merged into it.
pub open spec fn file_defaults(external: Seq<FileConfigView>, file: Text) -> Option<ScopeCheckView> {
    match file_items(external, file) {
        Some(items) => Some(with_file_defaults(top_config(), items)),
        None => None,
    }
}

/// The view of an optional configuration.
pub open spec fn opt_config(c: Option<ScopeCheckConfig>) -> Option<ScopeCheckView> {
    match c {
        Some(c) => Some(c@),
        None => None,
    }
}

impl ExternalConfig {
    /// The configuration that the file `file_name` starts from, if the
    /// external configuration knows the file.
    pub fn file_defaults_config(&self, file_name: &String) -> (r: Option<ScopeCheckConfig>)
        ensures
            opt_config(r) == file_defaults(self@, file_name@),
    {
        match self.get_file_items(file_name) {
            Some(items) => {
                let mut config = ScopeCheckConfig::new();
                merge_file_defaults(&mut config, items);
                Some(config)
            },
            None => None,
        }
    }

    /// A configuration without files.
    pub fn new() -> (r: ExternalConfig)
        ensures
            r@ == Seq::<FileConfigView>::empty(),
    {
        let r = ExternalConfig { files: Vec::new() };
        assert(r@ =~= Seq::empty());
        r
    }

    fn find_file(&self, name: &String) -> (r: Option<usize>)
        ensures
            match r {
                Some(i) => i < self.files.len() && file_index(self@, name@, 0) == Some(i as int),
                None => file_index(self@, name@, 0).is_none(),
            },
    {
        let mut i: usize = 0;
        while i < self.files.len()
            invariant
                i <= self.files.len(),
                file_index(self@, name@, 0) == file_index(self@, name@, i as int),
            decreases self.files.len() - i,
        {
            assert(self@[i as int] == self.files[i as int]@);
            if self.files[i].name == *name {
                return Some(i);
            }
            i = i + 1;
        }
        None
    }

    /// The entries for the file `file_name`, if the configuration has any.
    pub fn get_file_items(&self, file_name: &String) -> (r: Option<&Vec<ItemEntry>>)
        ensures
            match r {
                Some(items) => file_items(self@, file_name@) == Some(entries_view(items@)),
                None => file_items(self@, file_name@).is_none(),
            },
    {
        match self.find_file(file_name) {
            Some(i) => {
                assert(self@[i as int] == self.files[i as int]@);
                Some(&self.files[i].items)
            },
            None => None,
        }
    }

    /// Adds the configuration of one file.
    pub fn add_file(&mut self, file: FileConfig)
        ensures
            final(self)@ == with_file(old(self)@, file@),
    {
        let ghost before = self.files@;
        match self.find_file(&file.name) {
            Some(i) => {
                let mut items = file.items;
                let ghost added = items@;
                let ghost held = self.files[i as int].items@;
                let entry = &mut self.files[i];
                entry.items.append(&mut items);
                assert(entries_view(held + added) =~= entries_view(held) + entries_view(added));
                assert(self@ =~= with_file(files_view(before), file@));
            },
            None => {
                self.files.push(file);
                assert(self@ =~= with_file(files_view(before), file@));
            },
        }
    }

    /// This configuration with that of `other` merged into it.
    pub fn merge(self, other: ExternalConfig) -> (r: ExternalConfig)
        ensures
            r@ == with_files(self@, other@),
    {
        let mut merged = self;
        let ghost all = other.files@;
        assert(files_view(all).take(0).len() == 0);
        for f in it: other.files
            invariant
                it.seq() == all,
                merged@ == with_files(self@, files_view(all).take(it.index() as int)),
        {
            let ghost next = files_view(all).take(it.index() + 1);
            assert(next.last() == f@);
            assert(next.drop_last() == files_view(all).take(it.index() as int));
            merged.add_file(f);
        }
        assert(files_view(all).take(all.len() as int) == files_view(all));
        merged
    }
}

} // verus!
