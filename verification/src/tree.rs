//! The syntax tree that is instrumented.
//!
//! The tree holds what instrumentation reads and writes: the nesting of
//! items, statements and expressions, names, attributes and locations.
//! Everything else is carried as text. Besides the nodes of source code the
//! tree has nodes for what instrumentation adds: markers on aggregates and
//! fields, check statements, and hash implementations.

use vstd::prelude::*;
use crate::span::Span;
use crate::text::{Text, opt_text};

verus! {

/// The value of one argument of an attribute.
#[derive(Debug, PartialEq, Eq)]
pub enum MetaValue {
    /// A bare word: `name`.
    Nothing,
    /// `name = "text"`.
    Str(String),
    /// `name = 7`.
    Int(u64),
    /// `name = true`.
    Bool(bool),
    /// `name(..)`.
    List(Vec<MetaArg>),
}

/// One argument of an attribute, or the attribute itself.
#[derive(Debug, PartialEq, Eq)]
pub struct MetaArg {
    pub name: String,
    pub value: MetaValue,
}

/// [`MetaValue`] as contracts see it.
pub enum MetaValueView {
    Nothing,
    Str(Text),
    Int(u64),
    Bool(bool),
    List(Seq<MetaArgView>),
}

/// [`MetaArg`] as contracts see it.
pub struct MetaArgView {
    pub name: Text,
    pub value: MetaValueView,
}

/// The views of a sequence of attribute arguments.
pub open spec fn meta_args_view(s: Seq<MetaArg>) -> Seq<MetaArgView>
    decreases s,
{
    Seq::new(
        s.len(),
        |i: int|
            if 0 <= i < s.len() {
                s[i]@
            } else {
                arbitrary()
            },
    )
}

impl View for MetaValue {
    type V = MetaValueView;

    open spec fn view(&self) -> MetaValueView
        decreases self,
    {
        match self {
            MetaValue::Nothing => MetaValueView::Nothing,
            MetaValue::Str(s) => MetaValueView::Str(s@),
            MetaValue::Int(n) => MetaValueView::Int(*n),
            MetaValue::Bool(b) => MetaValueView::Bool(*b),
            MetaValue::List(args) => MetaValueView::List(meta_args_view(args@)),
        }
    }
}

impl View for MetaArg {
    type V = MetaArgView;

    open spec fn view(&self) -> MetaArgView
        decreases self,
    {
        MetaArgView { name: self.name@, value: self.value@ }
    }
}

/// The settings that a hash-configuration marker can carry.
#[derive(Clone, Copy, Debug, PartialEq, Eq, Structural)]
pub enum HashKey {
    AggregateHasher,
    SimpleHasher,
    FieldHasher,
    CustomHash,
}

/// One setting of a hash-configuration marker.
#[derive(Debug, PartialEq, Eq)]
pub struct HashOption {
    pub key: HashKey,
    pub value: String,
}

/// [`HashOption`] as contracts see it.
pub struct HashOptionView {
    pub key: HashKey,
    pub value: Text,
}

impl View for HashOption {
    type V = HashOptionView;

    open spec fn view(&self) -> HashOptionView {
        HashOptionView { key: self.key, value: self.value@ }
    }
}

/// The views of a sequence of settings.
pub open spec fn hash_options_view(s: Seq<HashOption>) -> Seq<HashOptionView> {
    Seq::new(s.len(), |i: int| s[i]@)
}

/// How the hash of an aggregate treats one field.
#[derive(Debug, PartialEq, Eq)]
pub enum FieldMarker {
    /// Hash the field as if it had this type.
    AsType(String),
    /// Leave the field out of the hash.
    Exclude,
    /// Use this value as the field's hash.
    Fixed(u64),
    /// Use the value of this expression as the field's hash.
    Custom(String),
}

/// [`FieldMarker`] as contracts see it.
pub enum FieldMarkerView {
    AsType(Text),
    Exclude,
    Fixed(u64),
    Custom(Text),
}

impl View for FieldMarker {
    type V = FieldMarkerView;

    open spec fn view(&self) -> FieldMarkerView {
        match self {
            FieldMarker::AsType(t) => FieldMarkerView::AsType(t@),
            FieldMarker::Exclude => FieldMarkerView::Exclude,
            FieldMarker::Fixed(v) => FieldMarkerView::Fixed(*v),
            FieldMarker::Custom(e) => FieldMarkerView::Custom(e@),
        }
    }
}

/// An attribute of an item, of a field or of a local binding.
#[derive(Debug, PartialEq, Eq)]
pub enum Attribute {
    /// An attribute of the source text.
    Source(MetaArg),
    /// Added: derive a content hash for this aggregate.
    DeriveHash,
    /// Added: the settings under which the hash is derived.
    HashConfig(Vec<HashOption>),
    /// Added: how the derived hash treats this field.
    FieldHash(FieldMarker),
}

/// [`Attribute`] as contracts see it.
pub enum AttributeView {
    Source(MetaArgView),
    DeriveHash,
    HashConfig(Seq<HashOptionView>),
    FieldHash(FieldMarkerView),
}

impl View for Attribute {
    type V = AttributeView;

    open spec fn view(&self) -> AttributeView {
        match self {
            Attribute::Source(m) => AttributeView::Source(m@),
            Attribute::DeriveHash => AttributeView::DeriveHash,
            Attribute::HashConfig(o) => AttributeView::HashConfig(hash_options_view(o@)),
            Attribute::FieldHash(m) => AttributeView::FieldHash(m@),
        }
    }
}

/// The views of a sequence of attributes.
pub open spec fn attrs_view(s: Seq<Attribute>) -> Seq<AttributeView> {
    Seq::new(s.len(), |i: int| s[i]@)
}

/// A pattern that binds an argument or a local.
#[derive(Debug, PartialEq, Eq)]
pub enum Pattern {
    /// A simple identifier.
    Ident(String),
    /// Any other pattern, as text.
    Other(String),
}

/// [`Pattern`] as contracts see it.
pub enum PatternView {
    Ident(Text),
    Other(Text),
}

impl View for Pattern {
    type V = PatternView;

    open spec fn view(&self) -> PatternView {
        match self {
            Pattern::Ident(n) => PatternView::Ident(n@),
            Pattern::Other(t) => PatternView::Other(t@),
        }
    }
}

/// One argument of a function.
#[derive(Debug, PartialEq, Eq)]
pub struct Arg {
    pub pat: Pattern,
    pub ty: String,
}

/// [`Arg`] as contracts see it.
pub struct ArgView {
    pub pat: PatternView,
    pub ty: Text,
}

impl View for Arg {
    type V = ArgView;

    open spec fn view(&self) -> ArgView {
        ArgView { pat: self.pat@, ty: self.ty@ }
    }
}

/// The views of a sequence of arguments.
pub open spec fn args_view(s: Seq<Arg>) -> Seq<ArgView> {
    Seq::new(s.len(), |i: int| s[i]@)
}

/// The signature of a function: its arguments and its declared return
/// type, if it declares one.
#[derive(Debug, PartialEq, Eq)]
pub struct FnDecl {
    pub inputs: Vec<Arg>,
    pub output: Option<String>,
}

/// [`FnDecl`] as contracts see it.
pub struct FnDeclView {
    pub inputs: Seq<ArgView>,
    pub output: Option<Text>,
}

impl View for FnDecl {
    type V = FnDeclView;

    open spec fn view(&self) -> FnDeclView {
        FnDeclView { inputs: args_view(self.inputs@), output: opt_text(self.output) }
    }
}

/// One field of an aggregate. A field of a tuple has no name.
#[derive(Debug, PartialEq, Eq)]
pub struct StructField {
    pub ident: Option<String>,
    pub attrs: Vec<Attribute>,
    pub ty: String,
}

/// [`StructField`] as contracts see it.
pub struct StructFieldView {
    pub ident: Option<Text>,
    pub attrs: Seq<AttributeView>,
    pub ty: Text,
}

impl View for StructField {
    type V = StructFieldView;

    open spec fn view(&self) -> StructFieldView {
        StructFieldView { ident: opt_text(self.ident), attrs: attrs_view(self.attrs@), ty: self.ty@ }
    }
}

/// The views of a sequence of fields.
pub open spec fn fields_view(s: Seq<StructField>) -> Seq<StructFieldView> {
    Seq::new(s.len(), |i: int| s[i]@)
}

/// The body of one aggregate: a struct, a union, or one variant of an enum.
#[derive(Debug, PartialEq, Eq)]
pub struct VariantData {
    pub fields: Vec<StructField>,
}

/// [`VariantData`] as contracts see it.
pub struct VariantDataView {
    pub fields: Seq<StructFieldView>,
}

impl View for VariantData {
    type V = VariantDataView;

    open spec fn view(&self) -> VariantDataView {
        VariantDataView { fields: fields_view(self.fields@) }
    }
}

/// One variant of an enum.
#[derive(Debug, PartialEq, Eq)]
pub struct Variant {
    pub ident: String,
    pub data: VariantData,
}

/// [`Variant`] as contracts see it.
pub struct VariantView {
    pub ident: Text,
    pub data: VariantDataView,
}

impl View for Variant {
    type V = VariantView;

    open spec fn view(&self) -> VariantView {
        VariantView { ident: self.ident@, data: self.data@ }
    }
}

/// The views of a sequence of variants.
pub open spec fn variants_view(s: Seq<Variant>) -> Seq<VariantView> {
    Seq::new(s.len(), |i: int| s[i]@)
}

/// What a foreign declaration declares.
#[derive(Clone, Copy, Debug, PartialEq, Eq, Structural)]
pub enum ForeignKind {
    /// A type of which only the name is known.
    Type,
    /// A function or a static.
    Other,
}

/// One declaration of a block of foreign declarations.
#[derive(Debug, PartialEq, Eq)]
pub struct ForeignItem {
    pub ident: String,
    pub span: Span,
    pub kind: ForeignKind,
}

/// [`ForeignItem`] as contracts see it.
pub struct ForeignItemView {
    pub ident: Text,
    pub span: Span,
    pub kind: ForeignKind,
}

impl View for ForeignItem {
    type V = ForeignItemView;

    open spec fn view(&self) -> ForeignItemView {
        ForeignItemView { ident: self.ident@, span: self.span, kind: self.kind }
    }
}

/// The views of a sequence of foreign declarations.
pub open spec fn foreign_items_view(s: Seq<ForeignItem>) -> Seq<ForeignItemView> {
    Seq::new(s.len(), |i: int| s[i]@)
}

/// The program point that a check reports.
#[derive(Clone, Copy, Debug, PartialEq, Eq, Structural)]
pub enum CheckTag {
    FunctionEntry,
    FunctionExit,
    FunctionArg,
    FunctionReturn,
    /// The value of a local binding.
    Value,
}

/// What a check emits.
#[derive(Debug, PartialEq, Eq)]
pub enum CheckKind {
    /// The standard hash: of the name for entry and exit, of the value
    /// otherwise.
    Hash,
    /// The hash of the value seen as this type.
    HashAs(String),
    /// This value.
    Fixed(u64),
    /// The value of this expression, in place of the standard hash.
    Custom(String),
    /// The value of this expression, emitted besides the standard checks.
    Extra(String),
}

/// [`CheckKind`] as contracts see it.
pub enum CheckKindView {
    Hash,
    HashAs(Text),
    Fixed(u64),
    Custom(Text),
    Extra(Text),
}

impl View for CheckKind {
    type V = CheckKindView;

    open spec fn view(&self) -> CheckKindView {
        match self {
            CheckKind::Hash => CheckKindView::Hash,
            CheckKind::HashAs(t) => CheckKindView::HashAs(t@),
            CheckKind::Fixed(v) => CheckKindView::Fixed(*v),
            CheckKind::Custom(e) => CheckKindView::Custom(e@),
            CheckKind::Extra(e) => CheckKindView::Extra(e@),
        }
    }
}

/// One check statement. `name` is the function for the entry, exit and
/// return checks and for extra checks, the argument for an argument
/// check, the binding for a value check.
#[derive(Debug, PartialEq, Eq)]
pub struct Check {
    pub tag: CheckTag,
    pub name: String,
    pub kind: CheckKind,
}

/// [`Check`] as contracts see it.
pub struct CheckView {
    pub tag: CheckTag,
    pub name: Text,
    pub kind: CheckKindView,
}

impl View for Check {
    type V = CheckView;

    open spec fn view(&self) -> CheckView {
        CheckView { tag: self.tag, name: self.name@, kind: self.kind@ }
    }
}

/// An expression. Only the nesting is known: `Compound` holds the form of
/// the expression as text and its parts in source order.
#[derive(Debug, PartialEq, Eq)]
pub struct Expr {
    pub span: Span,
    pub kind: ExprKind,
}

#[derive(Debug, PartialEq, Eq)]
pub enum ExprKind {
    /// An expression without parts.
    Leaf(String),
    /// An expression with parts.
    Compound(String, Vec<Expr>),
    /// A block.
    Block(Block),
    /// A macro invocation. Its tokens are not looked into.
    Mac(String),
}

/// A block of statements.
#[derive(Debug, PartialEq, Eq)]
pub struct Block {
    pub stmts: Vec<Stmt>,
}

/// A local binding.
#[derive(Debug, PartialEq, Eq)]
pub struct Local {
    pub span: Span,
    pub pat: Pattern,
    pub attrs: Vec<Attribute>,
    pub init: Option<Expr>,
}

/// A statement.
#[derive(Debug, PartialEq, Eq)]
pub enum Stmt {
    Local(Local),
    Item(Item),
    Expr(Expr),
    /// A macro invocation. Its tokens are not looked into.
    Mac(Span, String),
    /// Added: the declaration, at the top of a function, of the aggregate
    /// hasher and of the simple hasher that checks in it use.
    HasherAliases(String, String),
    /// Added: a check.
    Check(Check),
    /// Added: the body that a function was written with, run as a computation of its
    /// own whose result, of the given type, is kept.
    CallBody(String, Block),
    /// Added: yields the result that `CallBody` kept.
    YieldResult,
}

/// How a generated hash implementation computes its result.
#[derive(Debug, PartialEq, Eq)]
pub enum HashBody {
    /// By this expression.
    Custom(String),
    /// The fixed hash of a leaf record at depth zero, the fixed hash of
    /// an opaque union otherwise.
    Opaque,
    /// By a call of the foreign function of this name, which gets the
    /// value's address and the depth.
    Foreign(String),
}

/// [`HashBody`] as contracts see it.
pub enum HashBodyView {
    Custom(Text),
    Opaque,
    Foreign(Text),
}

impl View for HashBody {
    type V = HashBodyView;

    open spec fn view(&self) -> HashBodyView {
        match self {
            HashBody::Custom(e) => HashBodyView::Custom(e@),
            HashBody::Opaque => HashBodyView::Opaque,
            HashBody::Foreign(f) => HashBodyView::Foreign(f@),
        }
    }
}

/// An item.
#[derive(Debug, PartialEq, Eq)]
pub struct Item {
    pub ident: String,
    pub attrs: Vec<Attribute>,
    pub span: Span,
    pub kind: ItemKind,
}

#[derive(Debug, PartialEq, Eq)]
pub enum ItemKind {
    /// A function or a method.
    Fn(FnDecl, Block),
    /// A module: the location of its body and its items.
    Mod(Span, Vec<Item>),
    Struct(VariantData),
    Enum(Vec<Variant>),
    Union(VariantData),
    /// An implementation block: the type it is for and its members.
    Impl(String, Vec<Item>),
    /// A block of foreign declarations.
    ForeignMod(Vec<ForeignItem>),
    /// A macro invocation. Its tokens are not looked into.
    Mac(String),
    /// Any other item, as text.
    Other(String),
    /// Added: a hash implementation for the type that the item names.
    HashImpl(HashBody),
    /// Added: a function with C linkage, named by the item, that hashes
    /// a value of the given type with the given aggregate and simple
    /// hashers.
    HashExport(String, String, String),
}

/// [`Expr`] as contracts see it.
pub struct ExprView {
    pub span: Span,
    pub kind: ExprKindView,
}

/// [`ExprKind`] as contracts see it.
pub enum ExprKindView {
    Leaf(Text),
    Compound(Text, Seq<ExprView>),
    Block(BlockView),
    Mac(Text),
}

/// [`Block`] as contracts see it.
pub struct BlockView {
    pub stmts: Seq<StmtView>,
}

/// [`Local`] as contracts see it.
pub struct LocalView {
    pub span: Span,
    pub pat: PatternView,
    pub attrs: Seq<AttributeView>,
    pub init: Option<ExprView>,
}

/// [`Stmt`] as contracts see it.
pub enum StmtView {
    Local(LocalView),
    Item(ItemView),
    Expr(ExprView),
    Mac(Span, Text),
    HasherAliases(Text, Text),
    Check(CheckView),
    CallBody(Text, BlockView),
    YieldResult,
}

/// [`Item`] as contracts see it.
pub struct ItemView {
    pub ident: Text,
    pub attrs: Seq<AttributeView>,
    pub span: Span,
    pub kind: ItemKindView,
}

/// [`ItemKind`] as contracts see it.
pub enum ItemKindView {
    Fn(FnDeclView, BlockView),
    Mod(Span, Seq<ItemView>),
    Struct(VariantDataView),
    Enum(Seq<VariantView>),
    Union(VariantDataView),
    Impl(Text, Seq<ItemView>),
    ForeignMod(Seq<ForeignItemView>),
    Mac(Text),
    Other(Text),
    HashImpl(HashBodyView),
    HashExport(Text, Text, Text),
}

/// The views of a sequence of expressions.
pub open spec fn exprs_view(s: Seq<Expr>) -> Seq<ExprView>
    decreases s,
{
    Seq::new(
        s.len(),
        |i: int|
            if 0 <= i < s.len() {
                s[i]@
            } else {
                arbitrary()
            },
    )
}

/// The views of a sequence of statements.
pub open spec fn stmts_view(s: Seq<Stmt>) -> Seq<StmtView>
    decreases s,
{
    Seq::new(
        s.len(),
        |i: int|
            if 0 <= i < s.len() {
                s[i]@
            } else {
                arbitrary()
            },
    )
}

/// The views of a sequence of items.
pub open spec fn items_view(s: Seq<Item>) -> Seq<ItemView>
    decreases s,
{
    Seq::new(
        s.len(),
        |i: int|
            if 0 <= i < s.len() {
                s[i]@
            } else {
                arbitrary()
            },
    )
}

impl View for Expr {
    type V = ExprView;

    open spec fn view(&self) -> ExprView
        decreases self,
    {
        ExprView { span: self.span, kind: self.kind@ }
    }
}

impl View for ExprKind {
    type V = ExprKindView;

    open spec fn view(&self) -> ExprKindView
        decreases self,
    {
        match self {
            ExprKind::Leaf(t) => ExprKindView::Leaf(t@),
            ExprKind::Compound(t, parts) => ExprKindView::Compound(t@, exprs_view(parts@)),
            ExprKind::Block(b) => ExprKindView::Block(b@),
            ExprKind::Mac(t) => ExprKindView::Mac(t@),
        }
    }
}

impl View for Block {
    type V = BlockView;

    open spec fn view(&self) -> BlockView
        decreases self,
    {
        BlockView { stmts: stmts_view(self.stmts@) }
    }
}

impl View for Local {
    type V = LocalView;

    open spec fn view(&self) -> LocalView
        decreases self,
    {
        LocalView {
            span: self.span,
            pat: self.pat@,
            attrs: attrs_view(self.attrs@),
            init: match self.init {
                Some(e) => Some(e@),
                None => None,
            },
        }
    }
}

impl View for Stmt {
    type V = StmtView;

    open spec fn view(&self) -> StmtView
        decreases self,
    {
        match self {
            Stmt::Local(l) => StmtView::Local(l@),
            Stmt::Item(i) => StmtView::Item(i@),
            Stmt::Expr(e) => StmtView::Expr(e@),
            Stmt::Mac(sp, t) => StmtView::Mac(*sp, t@),
            Stmt::HasherAliases(a, s) => StmtView::HasherAliases(a@, s@),
            Stmt::Check(c) => StmtView::Check(c@),
            Stmt::CallBody(t, b) => StmtView::CallBody(t@, b@),
            Stmt::YieldResult => StmtView::YieldResult,
        }
    }
}

impl View for Item {
    type V = ItemView;

    open spec fn view(&self) -> ItemView
        decreases self,
    {
        ItemView {
            ident: self.ident@,
            attrs: attrs_view(self.attrs@),
            span: self.span,
            kind: self.kind@,
        }
    }
}

impl View for ItemKind {
    type V = ItemKindView;

    open spec fn view(&self) -> ItemKindView
        decreases self,
    {
        match self {
            ItemKind::Fn(d, b) => ItemKindView::Fn(d@, b@),
            ItemKind::Mod(sp, items) => ItemKindView::Mod(*sp, items_view(items@)),
            ItemKind::Struct(d) => ItemKindView::Struct(d@),
            ItemKind::Enum(v) => ItemKindView::Enum(variants_view(v@)),
            ItemKind::Union(d) => ItemKindView::Union(d@),
            ItemKind::Impl(t, items) => ItemKindView::Impl(t@, items_view(items@)),
            ItemKind::ForeignMod(f) => ItemKindView::ForeignMod(foreign_items_view(f@)),
            ItemKind::Mac(t) => ItemKindView::Mac(t@),
            ItemKind::Other(t) => ItemKindView::Other(t@),
            ItemKind::HashImpl(b) => ItemKindView::HashImpl(b@),
            ItemKind::HashExport(t, a, s) => ItemKindView::HashExport(t@, a@, s@),
        }
    }
}

/// Puts a statement behind those of `out`.
pub fn push_stmt(out: &mut Vec<Stmt>, s: Stmt)
    ensures
        stmts_view(final(out)@) == stmts_view(old(out)@).push(s@),
{
    out.push(s);
    reveal_with_fuel(stmts_view, 2);
    assert(stmts_view(out@) =~= stmts_view(old(out)@).push(s@));
}

/// Puts the statements of `more` behind those of `out`.
pub fn append_stmts(out: &mut Vec<Stmt>, more: Vec<Stmt>)
    ensures
        stmts_view(final(out)@) == stmts_view(old(out)@) + stmts_view(more@),
{
    let ghost added = more@;
    let mut more = more;
    out.append(&mut more);
    reveal_with_fuel(stmts_view, 2);
    assert(stmts_view(out@) =~= stmts_view(old(out)@) + stmts_view(added));
}

/// Puts an item behind those of `out`.
pub fn push_item(out: &mut Vec<Item>, item: Item)
    ensures
        items_view(final(out)@) == items_view(old(out)@).push(item@),
{
    out.push(item);
    assert(items_view(out@) =~= items_view(old(out)@).push(item@));
}

/// Puts the items of `more` behind those of `out`.
pub fn append_items(out: &mut Vec<Item>, more: Vec<Item>)
    ensures
        items_view(final(out)@) == items_view(old(out)@) + items_view(more@),
{
    let ghost added = more@;
    let mut more = more;
    out.append(&mut more);
    assert(items_view(out@) =~= items_view(old(out)@) + items_view(added));
}

/// Puts an expression behind those of `out`.
pub fn push_expr(out: &mut Vec<Expr>, e: Expr)
    ensures
        exprs_view(final(out)@) == exprs_view(old(out)@).push(e@),
{
    out.push(e);
    assert(exprs_view(out@) =~= exprs_view(old(out)@).push(e@));
}

/// Puts an attribute behind those of `out`.
pub fn push_attr(out: &mut Vec<Attribute>, a: Attribute)
    ensures
        attrs_view(final(out)@) == attrs_view(old(out)@).push(a@),
{
    out.push(a);
    assert(attrs_view(out@) =~= attrs_view(old(out)@).push(a@));
}

/// Puts a field behind those of `out`.
pub fn push_field(out: &mut Vec<StructField>, f: StructField)
    ensures
        fields_view(final(out)@) == fields_view(old(out)@).push(f@),
{
    out.push(f);
    assert(fields_view(out@) =~= fields_view(old(out)@).push(f@));
}

/// Puts a variant behind those of `out`.
pub fn push_variant(out: &mut Vec<Variant>, v: Variant)
    ensures
        variants_view(final(out)@) == variants_view(old(out)@).push(v@),
{
    out.push(v);
    assert(variants_view(out@) =~= variants_view(old(out)@).push(v@));
}

/// Puts a foreign declaration behind those of `out`.
pub fn push_foreign_item(out: &mut Vec<ForeignItem>, f: ForeignItem)
    ensures
        foreign_items_view(final(out)@) == foreign_items_view(old(out)@).push(f@),
{
    out.push(f);
    assert(foreign_items_view(out@) =~= foreign_items_view(old(out)@).push(f@));
}

/// Puts a setting behind those of `out`.
pub fn push_hash_option(out: &mut Vec<HashOption>, o: HashOption)
    ensures
        hash_options_view(final(out)@) == hash_options_view(old(out)@).push(o@),
{
    out.push(o);
    assert(hash_options_view(out@) =~= hash_options_view(old(out)@).push(o@));
}

} // verus!
