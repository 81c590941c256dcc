//! Controls.

use crate::classes::{class_from, class_names, push_extra, push_flag, with_extra, with_flag};
use vstd::prelude::*;
use yew::Classes;

verus! {

#[derive(Clone, Debug, PartialEq)]
pub struct ControlProps {
    pub classes: Option<Classes>,
    /// The HTML tag to use for this component.
    pub tag: String,
    /// A modifier to have the controlled element fill up the remaining space.
    pub expanded: bool,
}

impl ControlProps {
    /// The classes of the control: `control`, the extra classes, and
    /// `is-expanded` if asked for.
    pub open spec fn class(self) -> Seq<Seq<char>> {
        let names = with_extra(seq!["control"@], self.classes);
        with_flag(names, self.expanded, "is-expanded"@)
    }
}

/// A container with which you can wrap the form controls.
///
/// [https://bulma.io/documentation/form/general/](https://bulma.io/documentation/form/general/)
pub fn control(props: &ControlProps) -> (class: Classes)
    ensures
        class_names(class) == props.class(),
{
    proof {
        reveal_strlit("control");
        reveal_strlit("is-expanded");
    }
    let mut class = class_from("control");
    push_extra(&mut class, &props.classes);
    push_flag(&mut class, props.expanded, "is-expanded");
    class
}

} // verus!
