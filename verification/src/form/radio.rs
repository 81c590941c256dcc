//! Radio buttons.

use crate::classes::{class_from, class_names, push_extra, with_extra};
use vstd::prelude::*;
use yew::Classes;

verus! {

#[derive(Clone, Debug, PartialEq)]
pub struct RadioProps {
    /// The `name` attribute for this form element.
    ///
    /// All members of the same radio group must have the same value for their `name` attribute.
    pub name: String,
    /// The `value` attribute for this form element.
    ///
    /// This is different from other form elements, as this value does not change. It represents
    /// the value to be used for the radio group overall when this element is selected.
    pub value: String,
    /// The value of the currently selected radio of this radio group.
    pub checked_value: Option<String>,
    pub classes: Option<Classes>,
    /// Disable this component.
    pub disabled: bool,
}

impl RadioProps {
    /// Whether this radio is the selected one of its group: the group has a
    /// selected value, and it is the value of this radio.
    pub open spec fn checked(self) -> bool {
        match self.checked_value {
            Some(selected) => selected@ == self.value@,
            None => false,
        }
    }
}

/// What the markup of a radio button is made from.
#[derive(Debug)]
pub struct RadioMarkup {
    /// The classes of the label around the radio button.
    pub class: Classes,
    /// Whether the radio button is checked.
    pub checked: bool,
}

/// The mutually exclusive radio buttons in their native format.
///
/// [https://bulma.io/documentation/form/radio/](https://bulma.io/documentation/form/radio/)
///
/// All form components are controlled components. This means that the value of the field must
/// be provided from a parent component, and changes to this component are propagated to the parent
/// component via callback.
pub fn radio(props: &RadioProps) -> (markup: RadioMarkup)
    ensures
        class_names(markup.class) == with_extra(seq!["radio"@], props.classes),
        markup.checked == props.checked(),
{
    proof {
        reveal_strlit("radio");
    }
    let mut class = class_from("radio");
    push_extra(&mut class, &props.classes);
    let checked = match &props.checked_value {
        Some(selected) => *selected == props.value,
        None => false,
    };
    RadioMarkup { class, checked }
}

} // verus!
