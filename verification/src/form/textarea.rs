//! Multiline text inputs.

use crate::classes::{
    class_from, class_names, push_extra, push_flag, push_modifier, with_extra, with_flag,
    with_modifier,
};
use crate::common::Size;
use vstd::prelude::*;
use yew::Classes;

verus! {

#[derive(Clone, Debug, PartialEq)]
pub struct TextAreaProps {
    /// The `name` attribute for this form element.
    pub name: String,
    /// The controlled value of this form element.
    pub value: String,
    pub classes: Option<Classes>,
    /// The placeholder value for this component.
    pub placeholder: String,
    /// The number of rows to which this component will be locked.
    pub rows: u32,
    /// The size of this component.
    pub size: Option<Size>,
    /// Fix the size of this component.
    pub fixed_size: bool,
    /// Display a loading spinner within this component.
    pub loading: bool,
    /// Disable this component.
    pub disabled: bool,
    /// Make this component read-only.
    pub readonly: bool,
    /// Make this component static.
    pub is_static: bool,
}

impl TextAreaProps {
    /// The classes of the textarea: `textarea`, the extra classes, the class of
    /// the size, then one class for each flag that is set.
    pub open spec fn class(self) -> Seq<Seq<char>> {
        let names = with_extra(seq!["textarea"@], self.classes);
        let names = with_modifier(names, self.size);
        let names = with_flag(names, self.loading, "is-loading"@);
        let names = with_flag(names, self.is_static, "is-static"@);
        with_flag(names, self.fixed_size, "has-fixed-size"@)
    }
}

/// A multiline textarea component.
///
/// [https://bulma.io/documentation/form/textarea/](https://bulma.io/documentation/form/textarea/)
///
/// All form components are controlled components. This means that the value of the field must
/// be provided from a parent component, and changes to this component are propagated to the parent
/// component via callback.
pub fn text_area(props: &TextAreaProps) -> (class: Classes)
    ensures
        class_names(class) == props.class(),
{
    proof {
        reveal_strlit("textarea");
        reveal_strlit("is-loading");
        reveal_strlit("is-static");
        reveal_strlit("has-fixed-size");
    }
    let mut class = class_from("textarea");
    push_extra(&mut class, &props.classes);
    push_modifier(&mut class, &props.size);
    push_flag(&mut class, props.loading, "is-loading");
    push_flag(&mut class, props.is_static, "is-static");
    push_flag(&mut class, props.fixed_size, "has-fixed-size");
    class
}

} // verus!
