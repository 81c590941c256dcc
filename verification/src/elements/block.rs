//! Spacer blocks.

use crate::classes::{class_from, class_names, push_extra, with_extra};
use vstd::prelude::*;
use yew::Classes;

verus! {

#[derive(Clone, Debug, PartialEq)]
pub struct BlockProps {
    pub classes: Option<Classes>,
}

/// Bulma's most basic spacer block
///
/// [https://bulma.io/documentation/elements/block/](https://bulma.io/documentation/elements/block/)
pub fn block(props: &BlockProps) -> (class: Classes)
    ensures
        class_names(class) == with_extra(seq!["block"@], props.classes),
{
    proof {
        reveal_strlit("block");
    }
    let mut class = class_from("block");
    push_extra(&mut class, &props.classes);
    class
}

} // verus!
