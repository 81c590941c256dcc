//! Select dropdowns.

use crate::classes::{
    class_from, class_names, push_class, push_extra, push_flag, push_modifier, with_class,
    with_extra, with_flag, with_modifier,
};
use crate::common::Size;
use vstd::prelude::*;
use yew::Classes;

verus! {

#[derive(Clone, Debug, PartialEq)]
pub struct SelectProps {
    /// The `name` attribute for this form element.
    pub name: String,
    /// The controlled value of this form element.
    pub value: String,
    pub classes: Option<Classes>,
    /// The size of this component.
    pub size: Option<Size>,
    /// Display a loading spinner within this component.
    pub loading: bool,
    /// Disable this component.
    pub disabled: bool,
}

impl SelectProps {
    /// The classes of the wrapper: `select`, the extra classes, the class of
    /// the size, and `is-loading` if asked for.
    pub open spec fn class(self) -> Seq<Seq<char>> {
        let names = with_extra(seq!["select"@], self.classes);
        let names = with_modifier(names, self.size);
        with_flag(names, self.loading, "is-loading"@)
    }
}

/// A wrapper around an HTML `select` tag.
///
/// [https://bulma.io/documentation/form/select/](https://bulma.io/documentation/form/select/)
///
/// All form components are controlled components. This means that the value of the field must
/// be provided from a parent component, and changes to this component are propagated to the parent
/// component via callback.
pub fn select(props: &SelectProps) -> (class: Classes)
    ensures
        class_names(class) == props.class(),
{
    proof {
        reveal_strlit("select");
        reveal_strlit("is-loading");
    }
    let mut class = class_from("select");
    push_extra(&mut class, &props.classes);
    push_modifier(&mut class, &props.size);
    push_flag(&mut class, props.loading, "is-loading");
    class
}

#[derive(Clone, PartialEq)]
pub struct MultiSelectProps {
    /// The `name` attribute for this form element.
    pub name: String,
    /// The controlled value of this form element.
    pub value: Vec<String>,
    pub classes: Option<Classes>,
    /// The size of this component.
    pub size: Option<Size>,
    /// Size of the list to display.
    pub list_size: u32,
    /// Display a loading spinner within this component.
    pub loading: bool,
    /// Disable this component.
    pub disabled: bool,
}

impl MultiSelectProps {
    /// The classes of the wrapper: `select` and `is-multiple`, the extra
    /// classes, the class of the size, and `is-loading` if asked for.
    pub open spec fn class(self) -> Seq<Seq<char>> {
        let names = with_class(seq!["select"@], "is-multiple"@);
        let names = with_extra(names, self.classes);
        let names = with_modifier(names, self.size);
        with_flag(names, self.loading, "is-loading"@)
    }
}

/// A wrapper around an HTML `select` tag with the `multiple=true` attribute.
///
/// [https://bulma.io/documentation/form/select/](https://bulma.io/documentation/form/select/)
///
/// All form components are controlled components. This means that the value of the field must
/// be provided from a parent component, and changes to this component are propagated to the parent
/// component via callback.
pub fn multi_select(props: &MultiSelectProps) -> (class: Classes)
    ensures
        class_names(class) == props.class(),
{
    proof {
        reveal_strlit("select");
        reveal_strlit("is-multiple");
        reveal_strlit("is-loading");
    }
    let mut class = class_from("select");
    push_class(&mut class, "is-multiple");
    push_extra(&mut class, &props.classes);
    push_modifier(&mut class, &props.size);
    push_flag(&mut class, props.loading, "is-loading");
    class
}

} // verus!
