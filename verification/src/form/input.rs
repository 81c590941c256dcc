//! Text inputs.

use crate::classes::{
    class_from, class_names, push_extra, push_flag, push_modifier, with_extra, with_flag,
    with_modifier,
};
use crate::common::Size;
use vstd::prelude::*;
use yew::Classes;

verus! {

#[derive(Clone, Debug, PartialEq)]
pub struct InputProps {
    /// The `name` attribute for this form element.
    pub name: String,
    /// The controlled value of this form element.
    pub value: String,
    pub classes: Option<Classes>,
    /// The input type of this component.
    pub input_type: InputType,
    /// The placeholder value for this component.
    pub placeholder: String,
    /// The size of this component.
    pub size: Option<Size>,
    /// Use rounded appearance.
    pub rounded: bool,
    /// Display a loading spinner within this component.
    pub loading: bool,
    /// Disable this component.
    pub disabled: bool,
    /// Make this component read-only.
    pub readonly: bool,
    /// Make this component static.
    pub is_static: bool,
}

impl InputProps {
    /// The classes of the input: `input`, the extra classes, the class of the
    /// size, then one class for each flag that is set.
    pub open spec fn class(self) -> Seq<Seq<char>> {
        let names = with_extra(seq!["input"@], self.classes);
        let names = with_modifier(names, self.size);
        let names = with_flag(names, self.rounded, "is-rounded"@);
        let names = with_flag(names, self.loading, "is-loading"@);
        with_flag(names, self.is_static, "is-static"@)
    }
}

/// A text input element.
///
/// [https://bulma.io/documentation/form/input/](https://bulma.io/documentation/form/input/)
///
/// All form components are controlled components. This means that the value of the field must
/// be provided from a parent component, and changes to this component are propagated to the parent
/// component via callback.
pub fn input(props: &InputProps) -> (class: Classes)
    ensures
        class_names(class) == props.class(),
{
    proof {
        reveal_strlit("input");
        reveal_strlit("is-rounded");
        reveal_strlit("is-loading");
        reveal_strlit("is-static");
    }
    let mut class = class_from("input");
    push_extra(&mut class, &props.classes);
    push_modifier(&mut class, &props.size);
    push_flag(&mut class, props.rounded, "is-rounded");
    push_flag(&mut class, props.loading, "is-loading");
    push_flag(&mut class, props.is_static, "is-static");
    class
}

/// The 4 allowed types for an input component.
///
/// https://bulma.io/documentation/form/input/
#[derive(Clone, Debug, PartialEq)]
pub enum InputType {
    Text,
    Password,
    Email,
    Tel,
}

impl InputType {
    /// The value of the `type` attribute.
    pub open spec fn type_attribute(self) -> Seq<char> {
        match self {
            InputType::Text => "text"@,
            InputType::Password => "password"@,
            InputType::Email => "email"@,
            InputType::Tel => "tel"@,
        }
    }

    /// The value of the `type` attribute, as text.
    pub fn to_string(&self) -> (text: String)
        ensures
            text@ == self.type_attribute(),
    {
        match self {
            InputType::Text => "text".to_owned(),
            InputType::Password => "password".to_owned(),
            InputType::Email => "email".to_owned(),
            InputType::Tel => "tel".to_owned(),
        }
    }
}

} // verus!
