//! Footers.

use crate::classes::{class_from, class_names, push_extra, with_extra};
use vstd::prelude::*;
use yew::Classes;

verus! {

#[derive(Clone, Debug, PartialEq)]
pub struct FooterProps {
    pub classes: Option<Classes>,
}

/// A simple responsive footer which can include anything.
///
/// [https://bulma.io/documentation/layout/footer/](https://bulma.io/documentation/layout/footer/)
pub fn footer(props: &FooterProps) -> (class: Classes)
    ensures
        class_names(class) == with_extra(seq!["footer"@], props.classes),
{
    proof {
        reveal_strlit("footer");
    }
    let mut class = class_from("footer");
    push_extra(&mut class, &props.classes);
    class
}

} // verus!
