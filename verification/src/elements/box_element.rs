//! Boxes.

use crate::classes::{class_from, class_names, push_extra, with_extra};
use vstd::prelude::*;
use yew::Classes;

verus! {

#[derive(Clone, Debug, PartialEq)]
pub struct BoxProps {
    pub classes: Option<Classes>,
}

/// A white box to contain other elements.
///
/// [https://bulma.io/documentation/elements/box/](https://bulma.io/documentation/elements/box/)
pub fn box_element(props: &BoxProps) -> (class: Classes)
    ensures
        class_names(class) == with_extra(seq!["box"@], props.classes),
{
    proof {
        reveal_strlit("box");
    }
    let mut class = class_from("box");
    push_extra(&mut class, &props.classes);
    class
}

} // verus!
