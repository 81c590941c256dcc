//! Messages.

use crate::classes::{class_from, class_names, push_extra, with_extra};
use vstd::prelude::*;
use yew::Classes;

verus! {

#[derive(Clone, Debug, PartialEq)]
pub struct MessageProps {
    pub classes: Option<Classes>,
}

/// Colored message blocks, to emphasize part of your page.
///
/// [https://bulma.io/documentation/components/message/](https://bulma.io/documentation/components/message/)
pub fn message(props: &MessageProps) -> (class: Classes)
    ensures
        class_names(class) == with_extra(seq!["message"@], props.classes),
{
    proof {
        reveal_strlit("message");
    }
    let mut class = class_from("message");
    push_extra(&mut class, &props.classes);
    class
}

#[derive(Clone, Debug, PartialEq)]
pub struct MessageHeaderProps {
    pub classes: Option<Classes>,
}

/// An optional message header that can hold a title and a delete element.
///
/// [https://bulma.io/documentation/components/message/](https://bulma.io/documentation/components/message/)
pub fn message_header(props: &MessageHeaderProps) -> (class: Classes)
    ensures
        class_names(class) == with_extra(seq!["message-header"@], props.classes),
{
    proof {
        reveal_strlit("message-header");
    }
    let mut class = class_from("message-header");
    push_extra(&mut class, &props.classes);
    class
}

#[derive(Clone, Debug, PartialEq)]
pub struct MessageBodyProps {
    pub classes: Option<Classes>,
}

/// A container for the body of a message.
///
/// [https://bulma.io/documentation/components/message/](https://bulma.io/documentation/components/message/)
pub fn message_body(props: &MessageBodyProps) -> (class: Classes)
    ensures
        class_names(class) == with_extra(seq!["message-body"@], props.classes),
{
    proof {
        reveal_strlit("message-body");
    }
    let mut class = class_from("message-body");
    push_extra(&mut class, &props.classes);
    class
}

} // verus!
