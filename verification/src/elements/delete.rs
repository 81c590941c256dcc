//! Delete crosses.

use crate::classes::{class_from, class_names, push_extra, with_extra};
use vstd::prelude::*;
use yew::Classes;

verus! {

#[derive(Clone, Debug, PartialEq)]
pub struct DeleteProps {
    pub classes: Option<Classes>,
    /// The HTML tag to use for this component.
    pub tag: String,
}

/// A versatile delete cross.
///
/// [https://bulma.io/documentation/elements/delete/](https://bulma.io/documentation/elements/delete/)
pub fn delete(props: &DeleteProps) -> (class: Classes)
    ensures
        class_names(class) == with_extra(seq!["delete"@], props.classes),
{
    proof {
        reveal_strlit("delete");
    }
    let mut class = class_from("delete");
    push_extra(&mut class, &props.classes);
    class
}

} // verus!
