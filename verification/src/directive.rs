//! Check directives and the keys under which they are filed.

use vstd::prelude::*;
use crate::text::{Text, decimal_value, parse_decimal};

verus! {

/// What is to be done at one checkable point.
#[derive(Debug, PartialEq, Eq)]
pub enum CheckDirective {
    /// Hash the value, or the name, in the standard way.
    Default,
    /// Emit nothing.
    Disabled,
    /// Emit this value in place of a hash.
    Fixed(u64),
    /// Hash the value as if it had this type.
    AsType(String),
    /// Emit the value of this expression.
    Custom(String),
    /// Hash with the algorithm of this name. The variant is reserved: a
    /// check that resolves to it fails.
    Named(String),
}

/// [`CheckDirective`] as contracts see it.
pub enum DirectiveView {
    Default,
    Disabled,
    Fixed(u64),
    AsType(Text),
    Custom(Text),
    Named(Text),
}

impl View for CheckDirective {
    type V = DirectiveView;

    open spec fn view(&self) -> DirectiveView {
        match self {
            CheckDirective::Default => DirectiveView::Default,
            CheckDirective::Disabled => DirectiveView::Disabled,
            CheckDirective::Fixed(v) => DirectiveView::Fixed(*v),
            CheckDirective::AsType(t) => DirectiveView::AsType(t@),
            CheckDirective::Custom(e) => DirectiveView::Custom(e@),
            CheckDirective::Named(n) => DirectiveView::Named(n@),
        }
    }
}

impl Clone for CheckDirective {
    fn clone(&self) -> (r: Self)
        ensures
            r == *self,
    {
        match self {
            CheckDirective::Default => CheckDirective::Default,
            CheckDirective::Disabled => CheckDirective::Disabled,
            CheckDirective::Fixed(v) => CheckDirective::Fixed(*v),
            CheckDirective::AsType(t) => CheckDirective::AsType(t.clone()),
            CheckDirective::Custom(e) => CheckDirective::Custom(e.clone()),
            CheckDirective::Named(n) => CheckDirective::Named(n.clone()),
        }
    }
}

/// The view of an optional directive.
pub open spec fn opt_directive(o: Option<CheckDirective>) -> Option<DirectiveView> {
    match o {
        Some(d) => Some(d@),
        None => None,
    }
}

/// The identity of a field or of an argument: its declared name, or its
/// position among the unnamed fields of one aggregate.
#[derive(Debug, PartialEq, Eq)]
pub enum FieldId {
    Name(String),
    Index(usize),
}

/// [`FieldId`] as contracts see it.
pub enum FieldIdView {
    Name(Text),
    Index(usize),
}

impl View for FieldId {
    type V = FieldIdView;

    open spec fn view(&self) -> FieldIdView {
        match self {
            FieldId::Name(n) => FieldIdView::Name(n@),
            FieldId::Index(i) => FieldIdView::Index(*i),
        }
    }
}

impl Clone for FieldId {
    fn clone(&self) -> (r: Self)
        ensures
            r == *self,
    {
        match self {
            FieldId::Name(n) => FieldId::Name(n.clone()),
            FieldId::Index(i) => FieldId::Index(*i),
        }
    }
}

/// The identity that a key written as text stands for: a position where
/// the text is a decimal number, a name otherwise.
pub open spec fn field_id_of(key: Text) -> FieldIdView {
    match decimal_value(key) {
        Some(i) => FieldIdView::Index(i),
        None => FieldIdView::Name(key),
    }
}

impl FieldId {
    /// The identity that a key written as text stands for.
    pub fn from_str(key: &String) -> (r: FieldId)
        ensures
            r@ == field_id_of(key@),
    {
        match parse_decimal(key) {
            Some(i) => FieldId::Index(i),
            None => FieldId::Name(key.clone()),
        }
    }

    /// Whether two identities name the same field.
    pub fn same(&self, other: &FieldId) -> (r: bool)
        ensures
            r == (self@ == other@),
    {
        match (self, other) {
            (FieldId::Name(a), FieldId::Name(b)) => *a == *b,
            (FieldId::Index(i), FieldId::Index(j)) => *i == *j,
            _ => false,
        }
    }
}

/// One entry of a table of directives: the directive filed for one field
/// or argument.
#[derive(Debug, PartialEq, Eq)]
pub struct FieldDirective {
    pub field: FieldId,
    pub directive: CheckDirective,
}

/// [`FieldDirective`] as contracts see it.
pub struct FieldDirectiveView {
    pub field: FieldIdView,
    pub directive: DirectiveView,
}

impl View for FieldDirective {
    type V = FieldDirectiveView;

    open spec fn view(&self) -> FieldDirectiveView {
        FieldDirectiveView { field: self.field@, directive: self.directive@ }
    }
}

impl Clone for FieldDirective {
    fn clone(&self) -> (r: Self)
        ensures
            r == *self,
    {
        FieldDirective { field: self.field.clone(), directive: self.directive.clone() }
    }
}

/// The views of the entries of a table.
pub open spec fn table_view(s: Seq<FieldDirective>) -> Seq<FieldDirectiveView> {
    Seq::new(s.len(), |i: int| s[i]@)
}

/// The directive that a table holds for `key`: that of the last entry
/// filed under it, so that a later entry replaces an earlier one.
pub open spec fn table_get(table: Seq<FieldDirectiveView>, key: FieldIdView) -> Option<
    DirectiveView,
>
    decreases table.len(),
{
    if table.len() == 0 {
        None
    } else if table.last().field == key {
        Some(table.last().directive)
    } else {
        table_get(table.drop_last(), key)
    }
}

/// Looks `key` up in `table`.
pub fn lookup<'a>(table: &'a Vec<FieldDirective>, key: &FieldId) -> (r: Option<&'a CheckDirective>)
    ensures
        match r {
            Some(d) => table_get(table_view(table@), key@) == Some(d@),
            None => table_get(table_view(table@), key@).is_none(),
        },
{
    let mut i: usize = table.len();
    assert(table_view(table@).take(i as int) == table_view(table@));
    while i > 0
        invariant
            i <= table.len(),
            table_get(table_view(table@), key@) == table_get(
                table_view(table@).take(i as int),
                key@,
            ),
        decreases i,
    {
        let ghost cur = table_view(table@).take(i as int);
        assert(cur.last() == table[i - 1]@);
        assert(cur.drop_last() == table_view(table@).take(i - 1));
        if table[i - 1].field.same(key) {
            return Some(&table[i - 1].directive);
        }
        i = i - 1;
    }
    assert(table_view(table@).take(0).len() == 0);
    None
}

/// Appends copies of the entries of `more` to `table`.
pub fn extend_table(table: &mut Vec<FieldDirective>, more: &Vec<FieldDirective>)
    ensures
        final(table)@ == old(table)@ + more@,
{
    let mut i: usize = 0;
    while i < more.len()
        invariant
            i <= more.len(),
            table@ == old(table)@ + more@.take(i as int),
        decreases more.len() - i,
    {
        table.push(more[i].clone());
        assert(more@.take(i + 1) == more@.take(i as int).push(more@[i as int]));
        i = i + 1;
    }
    assert(more@.take(more.len() as int) == more@);
}

/// The table of a concatenation is the concatenation of the tables.
pub proof fn lemma_table_view_add(a: Seq<FieldDirective>, b: Seq<FieldDirective>)
    ensures
        table_view(a + b) == table_view(a) + table_view(b),
{
    assert(table_view(a + b) =~= table_view(a) + table_view(b));
}

} // verus!
