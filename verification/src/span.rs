//! Source locations.

use vstd::prelude::*;
use crate::config::{InheritedCheckConfig, InheritedView};
use crate::text::{Text, texts};

verus! {

/// A region of source text: the file it lies in, its bounds there, and the
/// expansion context that produced it. Context 0 is source text as written.
#[derive(Clone, Copy, Debug, PartialEq, Eq, Structural)]
pub struct Span {
    pub file: u32,
    pub lo: u32,
    pub hi: u32,
    pub ctxt: u32,
}

/// What is known of the source text: the names of its files, and for each
/// expansion context the place where the expansion was called for.
#[derive(Debug, PartialEq, Eq)]
pub struct SourceMap {
    /// The names of the files, by number.
    pub files: Vec<String>,
    /// The call site of each context, by number. Source text as written
    /// has none.
    pub expansions: Vec<Option<Span>>,
}

/// [`SourceMap`] as contracts see it.
pub struct SourceMapView {
    pub files: Seq<Text>,
    pub expansions: Seq<Option<Span>>,
}

impl View for SourceMap {
    type V = SourceMapView;

    open spec fn view(&self) -> SourceMapView {
        SourceMapView { files: texts(self.files@), expansions: self.expansions@ }
    }
}

/// The name of the file in which a location lies. A file that the map
/// does not know has the empty name.
pub open spec fn file_name_of(map: SourceMapView, sp: Span) -> Text {
    if sp.file < map.files.len() {
        map.files[sp.file as int]
    } else {
        Seq::empty()
    }
}

/// The place from which the text at `sp` was expanded, if it was. An
/// expansion is called for from an older context than the one it makes:
/// an entry that says otherwise is no call site.
pub open spec fn call_site_of(map: SourceMapView, sp: Span) -> Option<Span> {
    if sp.ctxt < map.expansions.len() {
        match map.expansions[sp.ctxt as int] {
            Some(site) => if site.ctxt < sp.ctxt {
                Some(site)
            } else {
                None
            },
            None => None,
        }
    } else {
        None
    }
}

impl SourceMap {
    /// The name of the file in which `sp` lies.
    pub fn span_to_filename(&self, sp: Span) -> (r: String)
        ensures
            r@ == file_name_of(self@, sp),
    {
        if (sp.file as usize) < self.files.len() {
            self.files[sp.file as usize].clone()
        } else {
            String::new()
        }
    }

    /// The place from which the text at `sp` was expanded, if it was.
    pub fn call_site(&self, sp: Span) -> (r: Option<Span>)
        ensures
            r == call_site_of(self@, sp),
            r matches Some(site) ==> site.ctxt < sp.ctxt,
    {
        if (sp.ctxt as usize) < self.expansions.len() {
            match self.expansions[sp.ctxt as usize] {
                Some(site) => if site.ctxt < sp.ctxt {
                    Some(site)
                } else {
                    None
                },
                None => None,
            }
        } else {
            None
        }
    }
}

/// One record of the span scope map: the inherited configuration that was
/// in force when the engine passed a location.
#[derive(Debug, PartialEq, Eq)]
pub struct SpanScope {
    pub span: Span,
    pub config: InheritedCheckConfig,
}

/// [`SpanScope`] as contracts see it.
pub struct SpanScopeView {
    pub span: Span,
    pub config: InheritedView,
}

impl View for SpanScope {
    type V = SpanScopeView;

    open spec fn view(&self) -> SpanScopeView {
        SpanScopeView { span: self.span, config: self.config@ }
    }
}

/// The views of a sequence of records.
pub open spec fn span_scopes_view(s: Seq<SpanScope>) -> Seq<SpanScopeView> {
    Seq::new(s.len(), |i: int| s[i]@)
}

/// The configuration recorded for exactly the location `sp`: that of the
/// last record, since a later record replaces an earlier one.
pub open spec fn recorded_at(log: Seq<SpanScopeView>, sp: Span) -> Option<InheritedView>
    decreases log.len(),
{
    if log.len() == 0 {
        None
    } else if log.last().span == sp {
        Some(log.last().config)
    } else {
        recorded_at(log.drop_last(), sp)
    }
}

/// The configuration that span lookup finds for `sp`: the one recorded
/// for `sp` itself, else the one found for the place from which `sp` was
/// expanded, else none.
pub open spec fn found_scope(log: Seq<SpanScopeView>, map: SourceMapView, sp: Span) -> Option<
    InheritedView,
>
    decreases sp.ctxt,
{
    match recorded_at(log, sp) {
        Some(c) => Some(c),
        None => match call_site_of(map, sp) {
            Some(site) => found_scope(log, map, site),
            None => None,
        },
    }
}

/// The span scope map: for the locations that the engine passed, the
/// inherited configuration in force there. Records are added and never
/// taken out.
#[derive(Debug, PartialEq, Eq)]
pub struct SpanScopeMap {
    pub records: Vec<SpanScope>,
}

impl View for SpanScopeMap {
    type V = Seq<SpanScopeView>;

    open spec fn view(&self) -> Seq<SpanScopeView> {
        span_scopes_view(self.records@)
    }
}

impl SpanScopeMap {
    /// A map without records.
    pub fn new() -> (r: SpanScopeMap)
        ensures
            r@ == Seq::<SpanScopeView>::empty(),
    {
        let r = SpanScopeMap { records: Vec::new() };
        assert(r@ =~= Seq::empty());
        r
    }

    /// Records that `config` is in force at `sp`.
    pub fn record(&mut self, sp: Span, config: InheritedCheckConfig)
        ensures
            final(self)@ == old(self)@.push(SpanScopeView { span: sp, config: config@ }),
    {
        self.records.push(SpanScope { span: sp, config });
        assert(self@ =~= old(self)@.push(SpanScopeView { span: sp, config: config@ }));
    }

    /// The configuration recorded for exactly the location `sp`.
    pub fn get(&self, sp: Span) -> (r: Option<&InheritedCheckConfig>)
        ensures
            match r {
                Some(c) => recorded_at(self@, sp) == Some(c@),
                None => recorded_at(self@, sp).is_none(),
            },
    {
        let mut i: usize = self.records.len();
        assert(self@.take(i as int) == self@);
        while i > 0
            invariant
                i <= self.records.len(),
                recorded_at(self@, sp) == recorded_at(self@.take(i as int), sp),
            decreases i,
        {
            let ghost cur = self@.take(i as int);
            assert(cur.last() == self.records[i - 1]@);
            assert(cur.drop_last() == self@.take(i - 1));
            if self.records[i - 1].span == sp {
                return Some(&self.records[i - 1].config);
            }
            i = i - 1;
        }
        assert(self@.take(0).len() == 0);
        None
    }

    /// Span lookup: the configuration recorded for `sp` or, failing that,
    /// for the nearest place in the chain of call sites from which `sp` was
    /// expanded.
    pub fn lookup(&self, map: &SourceMap, sp: Span) -> (r: Option<&InheritedCheckConfig>)
        ensures
            match r {
                Some(c) => found_scope(self@, map@, sp) == Some(c@),
                None => found_scope(self@, map@, sp).is_none(),
            },
        decreases sp.ctxt,
    {
        match self.get(sp) {
            Some(c) => Some(c),
            None => match map.call_site(sp) {
                Some(site) => self.lookup(map, site),
                None => None,
            },
        }
    }
}

/// The names of the hash functions with C linkage that were emitted.
/// Names are added and never taken out.
#[derive(Debug, PartialEq, Eq)]
pub struct EmittedSymbols {
    pub names: Vec<String>,
}

impl View for EmittedSymbols {
    type V = Seq<Text>;

    open spec fn view(&self) -> Seq<Text> {
        texts(self.names@)
    }
}

impl EmittedSymbols {
    /// No names.
    pub fn new() -> (r: EmittedSymbols)
        ensures
            r@ == Seq::<Text>::empty(),
    {
        let r = EmittedSymbols { names: Vec::new() };
        assert(r@ =~= Seq::empty());
        r
    }

    /// Whether `name` was emitted.
    pub fn contains(&self, name: &String) -> (r: bool)
        ensures
            r == self@.contains(name@),
    {
        let mut i: usize = 0;
        while i < self.names.len()
            invariant
                i <= self.names.len(),
                forall|j: int| 0 <= j < i ==> self@[j] != name@,
            decreases self.names.len() - i,
        {
            if self.names[i] == *name {
                assert(self@[i as int] == name@);
                return true;
            }
            i = i + 1;
        }
        false
    }

    /// Notes that `name` is emitted. Returns whether it was new; a name
    /// that is there already is not added again.
    pub fn insert(&mut self, name: String) -> (r: bool)
        ensures
            r == !old(self)@.contains(name@),
            final(self)@ == (if r {
                old(self)@.push(name@)
            } else {
                old(self)@
            }),
            final(self)@.contains(name@),
            old(self)@.no_duplicates() ==> final(self)@.no_duplicates(),
    {
        if self.contains(&name) {
            false
        } else {
            self.names.push(name);
            assert(self@ =~= old(self)@.push(name@));
            assert(self@[self@.len() - 1] == name@);
            true
        }
    }
}

} // verus!
