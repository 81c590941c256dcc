//! Notifications.

use crate::classes::{class_from, class_names, push_extra, with_extra};
use vstd::prelude::*;
use yew::Classes;

verus! {

#[derive(Clone, Debug, PartialEq)]
pub struct NotificationProps {
    pub classes: Option<Classes>,
}

/// Bold notification blocks, to alert your users of something.
///
/// [https://bulma.io/documentation/elements/notification/](https://bulma.io/documentation/elements/notification/)
pub fn notification(props: &NotificationProps) -> (class: Classes)
    ensures
        class_names(class) == with_extra(seq!["notification"@], props.classes),
{
    proof {
        reveal_strlit("notification");
    }
    let mut class = class_from("notification");
    push_extra(&mut class, &props.classes);
    class
}

} // verus!
