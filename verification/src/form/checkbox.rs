//! Checkboxes.

use crate::classes::{class_from, class_names, push_extra, with_extra};
use vstd::prelude::*;
use yew::Classes;

verus! {

#[derive(Clone, Debug, PartialEq)]
pub struct CheckboxProps {
    /// The `name` attribute for this form element.
    pub name: String,
    /// The controlled value of this form element.
    pub checked: bool,
    pub classes: Option<Classes>,
    /// Disable this component.
    pub disabled: bool,
}

/// What the markup of a checkbox is made from.
#[derive(Debug)]
pub struct CheckboxMarkup {
    /// The classes of the label around the checkbox.
    pub class: Classes,
    /// The value that a click on the checkbox reports.
    pub on_click: bool,
}

/// The 2-state checkbox in its native format.
///
/// [https://bulma.io/documentation/form/checkbox/](https://bulma.io/documentation/form/checkbox/)
///
/// All form components are controlled components. This means that the value of the field must
/// be provided from a parent component, and changes to this component are propagated to the parent
/// component via callback.
pub fn checkbox(props: &CheckboxProps) -> (markup: CheckboxMarkup)
    ensures
        class_names(markup.class) == with_extra(seq!["checkbox"@], props.classes),
        markup.on_click == !props.checked,
{
    proof {
        reveal_strlit("checkbox");
    }
    let mut class = class_from("checkbox");
    push_extra(&mut class, &props.classes);
    let checked = props.checked;
    CheckboxMarkup { class, on_click: !checked }
}

} // verus!
