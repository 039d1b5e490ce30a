//! Inline directives: the `cross_check` attribute and what it says.
//!
//! A directive is written `cross_check` or `cross_check(..)` with any of
//! these parameters:
//!
//! - `enabled = true` or `enabled = false`;
//! - `entry`, `exit`, `ret`, each bare or with one action in brackets;
//! - `args(..)`: an action for all arguments, and `name(action)` for one;
//! - `fields(..)`: `name(action)`, or `0(action)` for a field of a tuple;
//! - `ahasher`, `shasher`, `field_hasher`, `custom_hash`, each `= "text"`;
//! - `entry_extra(..)`, `exit_extra(..)`: a list of `custom = "text"`.
//!
//! An action is one of `default`, `disabled`, `fixed = 7`,
//! `as_type = "text"`, `custom = "text"` and the reserved
//! `named = "text"`. On a field the directive holds one action and nothing
//! else.

use vstd::prelude::*;
use crate::config::{Settings, SettingsView, no_settings};
use crate::directive::{
    CheckDirective, DirectiveView, FieldDirective, FieldDirectiveView, FieldId, FieldIdView,
    field_id_of, opt_directive, table_view,
};
use crate::error::CheckError;
use crate::text::{Text, str_is, texts};
use crate::tree::{
    Attribute, AttributeView, MetaArg, MetaArgView, MetaValue, MetaValueView, attrs_view,
    meta_args_view,
};

verus! {

/// Whether an attribute is an inline directive.
pub open spec fn is_cross_check(a: AttributeView) -> bool {
    a matches AttributeView::Source(m) && m.name == "cross_check"@
}

/// The first inline directive among `attrs`, from `from` on.
pub open spec fn cross_check_from(attrs: Seq<AttributeView>, from: int) -> Option<MetaArgView>
    decreases attrs.len() - from,
{
    if from < 0 || from >= attrs.len() {
        None
    } else if is_cross_check(attrs[from]) {
        Some(attrs[from]->Source_0)
    } else {
        cross_check_from(attrs, from + 1)
    }
}

/// The inline directive among `attrs`, if there is one.
pub open spec fn cross_check_attr(attrs: Seq<AttributeView>) -> Option<MetaArgView> {
    cross_check_from(attrs, 0)
}

/// Whether an attribute is an inline directive.
pub fn attr_is_cross_check(a: &Attribute) -> (r: bool)
    ensures
        r == is_cross_check(a@),
{
    match a {
        Attribute::Source(m) => str_is(&m.name, "cross_check"),
        _ => false,
    }
}

/// Finds the inline directive among `attrs`.
pub fn find_cross_check_attr(attrs: &Vec<Attribute>) -> (r: Option<&MetaArg>)
    ensures
        match r {
            Some(m) => cross_check_attr(attrs_view(attrs@)) == Some(m@),
            None => cross_check_attr(attrs_view(attrs@)).is_none(),
        },
{
    let mut i: usize = 0;
    while i < attrs.len()
        invariant
            i <= attrs.len(),
            cross_check_attr(attrs_view(attrs@)) == cross_check_from(attrs_view(attrs@), i as int),
        decreases attrs.len() - i,
    {
        assert(attrs_view(attrs@)[i as int] == attrs[i as int]@);
        if attr_is_cross_check(&attrs[i]) {
            match &attrs[i] {
                Attribute::Source(m) => {
                    return Some(m);
                },
                _ => {},
            }
        }
        i = i + 1;
    }
    None
}

/// The view of the result of parsing a directive.
pub open spec fn directive_result(r: Result<CheckDirective, CheckError>) -> Result<
    DirectiveView,
    CheckError,
> {
    match r {
        Ok(d) => Ok(d@),
        Err(e) => Err(e),
    }
}

/// The directive that one action stands for.
pub open spec fn action_of(item: MetaArgView) -> Result<DirectiveView, CheckError> {
    match item.value {
        MetaValueView::Nothing => if item.name == "default"@ {
            Ok(DirectiveView::Default)
        } else if item.name == "disabled"@ {
            Ok(DirectiveView::Disabled)
        } else {
            Err(CheckError::MalformedDirective)
        },
        MetaValueView::Int(v) => if item.name == "fixed"@ {
            Ok(DirectiveView::Fixed(v))
        } else {
            Err(CheckError::MalformedDirective)
        },
        MetaValueView::Str(t) => if item.name == "as_type"@ {
            Ok(DirectiveView::AsType(t))
        } else if item.name == "custom"@ {
            Ok(DirectiveView::Custom(t))
        } else if item.name == "named"@ {
            Ok(DirectiveView::Named(t))
        } else {
            Err(CheckError::MalformedDirective)
        },
        _ => Err(CheckError::MalformedDirective),
    }
}

/// Reads one action.
pub fn parse_action(item: &MetaArg) -> (r: Result<CheckDirective, CheckError>)
    ensures
        directive_result(r) == action_of(item@),
{
    match &item.value {
        MetaValue::Nothing => if str_is(&item.name, "default") {
            Ok(CheckDirective::Default)
        } else if str_is(&item.name, "disabled") {
            Ok(CheckDirective::Disabled)
        } else {
            Err(CheckError::MalformedDirective)
        },
        MetaValue::Int(v) => if str_is(&item.name, "fixed") {
            Ok(CheckDirective::Fixed(*v))
        } else {
            Err(CheckError::MalformedDirective)
        },
        MetaValue::Str(t) => if str_is(&item.name, "as_type") {
            Ok(CheckDirective::AsType(t.clone()))
        } else if str_is(&item.name, "custom") {
            Ok(CheckDirective::Custom(t.clone()))
        } else if str_is(&item.name, "named") {
            Ok(CheckDirective::Named(t.clone()))
        } else {
            Err(CheckError::MalformedDirective)
        },
        _ => Err(CheckError::MalformedDirective),
    }
}

/// The directive that the value of a check parameter stands for: the
/// standard check where the parameter is bare, else the one action in
/// its brackets.
pub open spec fn action_spec(value: MetaValueView) -> Result<DirectiveView, CheckError> {
    match value {
        MetaValueView::Nothing => Ok(DirectiveView::Default),
        MetaValueView::List(items) => if items.len() == 1 {
            action_of(items[0])
        } else {
            Err(CheckError::MalformedDirective)
        },
        _ => Err(CheckError::MalformedDirective),
    }
}

/// Reads the value of a check parameter.
pub fn parse_action_spec(value: &MetaValue) -> (r: Result<CheckDirective, CheckError>)
    ensures
        directive_result(r) == action_spec(value@),
{
    match value {
        MetaValue::Nothing => Ok(CheckDirective::Default),
        MetaValue::List(items) => {
            assert(value@ == MetaValueView::List(meta_args_view(items@)));
            if items.len() == 1 {
                assert(meta_args_view(items@)[0] == items[0]@);
                parse_action(&items[0])
            } else {
                Err(CheckError::MalformedDirective)
            }
        },
        _ => Err(CheckError::MalformedDirective),
    }
}

/// The directive that an inline directive on a field gives: none where it
/// is bare or empty, else its one action.
pub open spec fn field_directive(m: MetaArgView) -> Result<Option<DirectiveView>, CheckError> {
    match m.value {
        MetaValueView::Nothing => Ok(None),
        MetaValueView::List(items) => if items.len() == 0 {
            Ok(None)
        } else if items.len() == 1 {
            match action_of(items[0]) {
                Ok(d) => Ok(Some(d)),
                Err(e) => Err(e),
            }
        } else {
            Err(CheckError::MalformedDirective)
        },
        _ => Err(CheckError::MalformedDirective),
    }
}

/// The view of the result of reading the directive of a field.
pub open spec fn field_result(r: Result<Option<CheckDirective>, CheckError>) -> Result<
    Option<DirectiveView>,
    CheckError,
> {
    match r {
        Ok(d) => Ok(opt_directive(d)),
        Err(e) => Err(e),
    }
}

/// Reads an inline directive on a field.
pub fn parse_field_directive(m: &MetaArg) -> (r: Result<Option<CheckDirective>, CheckError>)
    ensures
        field_result(r) == field_directive(m@),
{
    assert(m@.value == m.value@);
    match &m.value {
        MetaValue::Nothing => Ok(None),
        MetaValue::List(items) => {
            assert(m.value@ == MetaValueView::List(meta_args_view(items@)));
            if items.len() == 0 {
                Ok(None)
            } else if items.len() == 1 {
                assert(meta_args_view(items@)[0] == items[0]@);
                match parse_action(&items[0]) {
                    Ok(d) => Ok(Some(d)),
                    Err(e) => Err(e),
                }
            } else {
                Err(CheckError::MalformedDirective)
            }
        },
        _ => Err(CheckError::MalformedDirective),
    }
}

/// `list` with the expressions of a list of extra checks behind it, read
/// from item `i` on.
pub open spec fn with_extras(list: Seq<Text>, items: Seq<MetaArgView>, i: int) -> Result<
    Seq<Text>,
    CheckError,
>
    decreases items.len() - i,
{
    if i < 0 || i >= items.len() {
        Ok(list)
    } else if items[i].name == "custom"@ && items[i].value is Str {
        with_extras(list.push(items[i].value->Str_0), items, i + 1)
    } else {
        Err(CheckError::MalformedDirective)
    }
}

fn parse_extras(list: &mut Vec<String>, items: &Vec<MetaArg>) -> (r: Result<(), CheckError>)
    ensures
        match r {
            Ok(_) => with_extras(texts(old(list)@), meta_args_view(items@), 0) == Ok::<
                Seq<Text>,
                CheckError,
            >(texts(final(list)@)),
            Err(e) => with_extras(texts(old(list)@), meta_args_view(items@), 0) == Err::<
                Seq<Text>,
                CheckError,
            >(e),
        },
{
    let mut i: usize = 0;
    while i < items.len()
        invariant
            i <= items.len(),
            with_extras(texts(old(list)@), meta_args_view(items@), 0) == with_extras(
                texts(list@),
                meta_args_view(items@),
                i as int,
            ),
        decreases items.len() - i,
    {
        assert(meta_args_view(items@)[i as int] == items[i as int]@);
        let ghost before = list@;
        if !str_is(&items[i].name, "custom") {
            return Err(CheckError::MalformedDirective);
        }
        match &items[i].value {
            MetaValue::Str(e) => {
                list.push(e.clone());
                assert(texts(list@) =~= texts(before).push(e@));
            },
            _ => {
                return Err(CheckError::MalformedDirective);
            },
        }
        i = i + 1;
    }
    Ok(())
}

/// `s` after the items of an `args` parameter were read into it, from
/// item `i` on: an item with brackets is the directive of the argument of
/// that name, any other item is an action for all arguments.
pub open spec fn with_args(s: SettingsView, items: Seq<MetaArgView>, i: int) -> Result<
    SettingsView,
    CheckError,
>
    decreases items.len() - i,
{
    if i < 0 || i >= items.len() {
        Ok(s)
    } else if items[i].value is List {
        match action_spec(items[i].value) {
            Ok(d) => with_args(
                SettingsView {
                    args: s.args.push(
                        FieldDirectiveView { field: FieldIdView::Name(items[i].name), directive: d },
                    ),
                    ..s
                },
                items,
                i + 1,
            ),
            Err(e) => Err(e),
        }
    } else {
        match action_of(items[i]) {
            Ok(d) => with_args(SettingsView { all_args: Some(d), ..s }, items, i + 1),
            Err(e) => Err(e),
        }
    }
}

fn parse_args(s: &mut Settings, items: &Vec<MetaArg>) -> (r: Result<(), CheckError>)
    ensures
        match r {
            Ok(_) => with_args(old(s)@, meta_args_view(items@), 0) == Ok::<SettingsView, CheckError>(final(s)@),
            Err(e) => with_args(old(s)@, meta_args_view(items@), 0) == Err::<
                SettingsView,
                CheckError,
            >(e),
        },
{
    let mut i: usize = 0;
    while i < items.len()
        invariant
            i <= items.len(),
            with_args(old(s)@, meta_args_view(items@), 0) == with_args(
                s@,
                meta_args_view(items@),
                i as int,
            ),
        decreases items.len() - i,
    {
        assert(meta_args_view(items@)[i as int] == items[i as int]@);
        let ghost before = s.args@;
        match &items[i].value {
            MetaValue::List(_) => {
                match parse_action_spec(&items[i].value) {
                    Ok(d) => {
                        let entry = FieldDirective {
                            field: FieldId::Name(items[i].name.clone()),
                            directive: d,
                        };
                        s.args.push(entry);
                        assert(table_view(s.args@) =~= table_view(before).push(entry@));
                    },
                    Err(e) => {
                        return Err(e);
                    },
                }
            },
            _ => {
                match parse_action(&items[i]) {
                    Ok(d) => {
                        s.all_args = Some(d);
                    },
                    Err(e) => {
                        return Err(e);
                    },
                }
            },
        }
        i = i + 1;
    }
    Ok(())
}

/// `s` after the items of a `fields` parameter were read into it, from
/// item `i` on: each item is the directive of the field of that name or
/// at that position.
pub open spec fn with_fields(s: SettingsView, items: Seq<MetaArgView>, i: int) -> Result<
    SettingsView,
    CheckError,
>
    decreases items.len() - i,
{
    if i < 0 || i >= items.len() {
        Ok(s)
    } else if items[i].value is List {
        match action_spec(items[i].value) {
            Ok(d) => with_fields(
                SettingsView {
                    fields: s.fields.push(
                        FieldDirectiveView { field: field_id_of(items[i].name), directive: d },
                    ),
                    ..s
                },
                items,
                i + 1,
            ),
            Err(e) => Err(e),
        }
    } else {
        Err(CheckError::MalformedDirective)
    }
}

fn parse_fields(s: &mut Settings, items: &Vec<MetaArg>) -> (r: Result<(), CheckError>)
    ensures
        match r {
            Ok(_) => with_fields(old(s)@, meta_args_view(items@), 0) == Ok::<SettingsView, CheckError>(final(s)@),
            Err(e) => with_fields(old(s)@, meta_args_view(items@), 0) == Err::<
                SettingsView,
                CheckError,
            >(e),
        },
{
    let mut i: usize = 0;
    while i < items.len()
        invariant
            i <= items.len(),
            with_fields(old(s)@, meta_args_view(items@), 0) == with_fields(
                s@,
                meta_args_view(items@),
                i as int,
            ),
        decreases items.len() - i,
    {
        assert(meta_args_view(items@)[i as int] == items[i as int]@);
        let ghost before = s.fields@;
        match &items[i].value {
            MetaValue::List(_) => {
                match parse_action_spec(&items[i].value) {
                    Ok(d) => {
                        let entry = FieldDirective {
                            field: FieldId::from_str(&items[i].name),
                            directive: d,
                        };
                        s.fields.push(entry);
                        assert(table_view(s.fields@) =~= table_view(before).push(entry@));
                    },
                    Err(e) => {
                        return Err(e);
                    },
                }
            },
            _ => {
                return Err(CheckError::MalformedDirective);
            },
        }
        i = i + 1;
    }
    Ok(())
}

/// The text that a parameter gives, where it gives one.
pub open spec fn text_value(value: MetaValueView) -> Result<Text, CheckError> {
    match value {
        MetaValueView::Str(t) => Ok(t),
        _ => Err(CheckError::MalformedDirective),
    }
}

fn parse_text(value: &MetaValue) -> (r: Result<String, CheckError>)
    ensures
        match r {
            Ok(t) => text_value(value@) == Ok::<Text, CheckError>(t@),
            Err(e) => text_value(value@) == Err::<Text, CheckError>(e),
        },
{
    match value {
        MetaValue::Str(t) => Ok(t.clone()),
        _ => Err(CheckError::MalformedDirective),
    }
}

/// `s` after one parameter of a directive was read into it.
pub open spec fn with_param(s: SettingsView, p: MetaArgView) -> Result<SettingsView, CheckError> {
    if p.name == "enabled"@ {
        match p.value {
            MetaValueView::Bool(b) => Ok(SettingsView { enabled: Some(b), ..s }),
            _ => Err(CheckError::MalformedDirective),
        }
    } else if p.name == "entry"@ {
        match action_spec(p.value) {
            Ok(d) => Ok(SettingsView { entry: Some(d), ..s }),
            Err(e) => Err(e),
        }
    } else if p.name == "exit"@ {
        match action_spec(p.value) {
            Ok(d) => Ok(SettingsView { exit: Some(d), ..s }),
            Err(e) => Err(e),
        }
    } else if p.name == "ret"@ {
        match action_spec(p.value) {
            Ok(d) => Ok(SettingsView { ret: Some(d), ..s }),
            Err(e) => Err(e),
        }
    } else if p.name == "args"@ {
        match p.value {
            MetaValueView::List(items) => with_args(s, items, 0),
            _ => Err(CheckError::MalformedDirective),
        }
    } else if p.name == "fields"@ {
        match p.value {
            MetaValueView::List(items) => with_fields(s, items, 0),
            _ => Err(CheckError::MalformedDirective),
        }
    } else if p.name == "ahasher"@ {
        match text_value(p.value) {
            Ok(t) => Ok(SettingsView { ahasher: Some(t), ..s }),
            Err(e) => Err(e),
        }
    } else if p.name == "shasher"@ {
        match text_value(p.value) {
            Ok(t) => Ok(SettingsView { shasher: Some(t), ..s }),
            Err(e) => Err(e),
        }
    } else if p.name == "field_hasher"@ {
        match text_value(p.value) {
            Ok(t) => Ok(SettingsView { field_hasher: Some(t), ..s }),
            Err(e) => Err(e),
        }
    } else if p.name == "custom_hash"@ {
        match text_value(p.value) {
            Ok(t) => Ok(SettingsView { custom_hash: Some(t), ..s }),
            Err(e) => Err(e),
        }
    } else if p.name == "entry_extra"@ {
        match p.value {
            MetaValueView::List(items) => match with_extras(s.entry_extra, items, 0) {
                Ok(l) => Ok(SettingsView { entry_extra: l, ..s }),
                Err(e) => Err(e),
            },
            _ => Err(CheckError::MalformedDirective),
        }
    } else if p.name == "exit_extra"@ {
        match p.value {
            MetaValueView::List(items) => match with_extras(s.exit_extra, items, 0) {
                Ok(l) => Ok(SettingsView { exit_extra: l, ..s }),
                Err(e) => Err(e),
            },
            _ => Err(CheckError::MalformedDirective),
        }
    } else {
        Err(CheckError::MalformedDirective)
    }
}

fn parse_param(s: &mut Settings, p: &MetaArg) -> (r: Result<(), CheckError>)
    ensures
        match r {
            Ok(_) => with_param(old(s)@, p@) == Ok::<SettingsView, CheckError>(final(s)@),
            Err(e) => with_param(old(s)@, p@) == Err::<SettingsView, CheckError>(e),
        },
{
    if str_is(&p.name, "enabled") {
        match &p.value {
            MetaValue::Bool(b) => {
                s.enabled = Some(*b);
                Ok(())
            },
            _ => Err(CheckError::MalformedDirective),
        }
    } else if str_is(&p.name, "entry") {
        match parse_action_spec(&p.value) {
            Ok(d) => {
                s.entry = Some(d);
                Ok(())
            },
            Err(e) => Err(e),
        }
    } else if str_is(&p.name, "exit") {
        match parse_action_spec(&p.value) {
            Ok(d) => {
                s.exit = Some(d);
                Ok(())
            },
            Err(e) => Err(e),
        }
    } else if str_is(&p.name, "ret") {
        match parse_action_spec(&p.value) {
            Ok(d) => {
                s.ret = Some(d);
                Ok(())
            },
            Err(e) => Err(e),
        }
    } else if str_is(&p.name, "args") {
        match &p.value {
            MetaValue::List(items) => parse_args(s, items),
            _ => Err(CheckError::MalformedDirective),
        }
    } else if str_is(&p.name, "fields") {
        match &p.value {
            MetaValue::List(items) => parse_fields(s, items),
            _ => Err(CheckError::MalformedDirective),
        }
    } else if str_is(&p.name, "ahasher") {
        match parse_text(&p.value) {
            Ok(t) => {
                s.ahasher = Some(t);
                Ok(())
            },
            Err(e) => Err(e),
        }
    } else if str_is(&p.name, "shasher") {
        match parse_text(&p.value) {
            Ok(t) => {
                s.shasher = Some(t);
                Ok(())
            },
            Err(e) => Err(e),
        }
    } else if str_is(&p.name, "field_hasher") {
        match parse_text(&p.value) {
            Ok(t) => {
                s.field_hasher = Some(t);
                Ok(())
            },
            Err(e) => Err(e),
        }
    } else if str_is(&p.name, "custom_hash") {
        match parse_text(&p.value) {
            Ok(t) => {
                s.custom_hash = Some(t);
                Ok(())
            },
            Err(e) => Err(e),
        }
    } else if str_is(&p.name, "entry_extra") {
        match &p.value {
            MetaValue::List(items) => parse_extras(&mut s.entry_extra, items),
            _ => Err(CheckError::MalformedDirective),
        }
    } else if str_is(&p.name, "exit_extra") {
        match &p.value {
            MetaValue::List(items) => parse_extras(&mut s.exit_extra, items),
            _ => Err(CheckError::MalformedDirective),
        }
    } else {
        Err(CheckError::MalformedDirective)
    }
}

/// `s` after the parameters of a directive were read into it in their
/// order, from parameter `i` on.
pub open spec fn with_params(s: SettingsView, items: Seq<MetaArgView>, i: int) -> Result<
    SettingsView,
    CheckError,
>
    decreases items.len() - i,
{
    if i < 0 || i >= items.len() {
        Ok(s)
    } else {
        match with_param(s, items[i]) {
            Ok(next) => with_params(next, items, i + 1),
            Err(e) => Err(e),
        }
    }
}

/// The settings that an inline directive gives.
pub open spec fn directive_settings(m: MetaArgView) -> Result<SettingsView, CheckError> {
    match m.value {
        MetaValueView::Nothing => Ok(no_settings()),
        MetaValueView::List(items) => with_params(no_settings(), items, 0),
        _ => Err(CheckError::MalformedDirective),
    }
}

/// The view of the result of reading an inline directive.
pub open spec fn settings_result(r: Result<Settings, CheckError>) -> Result<
    SettingsView,
    CheckError,
> {
    match r {
        Ok(s) => Ok(s@),
        Err(e) => Err(e),
    }
}

/// Reads an inline directive. It is malformed, and nothing else is, where
/// it names a parameter that does not exist or gives one a value of
/// another shape than the parameter takes.
pub fn parse_attr_config(m: &MetaArg) -> (r: Result<Settings, CheckError>)
    ensures
        settings_result(r) == directive_settings(m@),
{
    assert(m@.value == m.value@);
    match &m.value {
        MetaValue::Nothing => Ok(Settings::new()),
        MetaValue::List(items) => {
            let mut s = Settings::new();
            let mut i: usize = 0;
            while i < items.len()
                invariant
                    i <= items.len(),
                    m@.value == MetaValueView::List(meta_args_view(items@)),
                    with_params(no_settings(), meta_args_view(items@), 0) == with_params(
                        s@,
                        meta_args_view(items@),
                        i as int,
                    ),
                decreases items.len() - i,
            {
                assert(meta_args_view(items@)[i as int] == items[i as int]@);
                match parse_param(&mut s, &items[i]) {
                    Ok(_) => {},
                    Err(e) => {
                        return Err(e);
                    },
                }
                i = i + 1;
            }
            Ok(s)
        },
        _ => Err(CheckError::MalformedDirective),
    }
}

} // verus!
