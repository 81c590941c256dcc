//! Containers.

use crate::classes::{class_from, class_names, push_extra, push_flag, with_extra, with_flag};
use vstd::prelude::*;
use yew::Classes;

verus! {

#[derive(Clone, Debug, PartialEq)]
pub struct ContainerProps {
    pub classes: Option<Classes>,
    /// Add a `32px` margin to the left and right sides of the container.
    pub fluid: bool,
}

impl ContainerProps {
    /// The classes of the container: `container`, the extra classes, and
    /// `is-fluid` if asked for.
    pub open spec fn class(self) -> Seq<Seq<char>> {
        let names = with_extra(seq!["container"@], self.classes);
        with_flag(names, self.fluid, "is-fluid"@)
    }
}

/// A simple container to center your content horizontally.
///
/// [https://bulma.io/documentation/layout/container/](https://bulma.io/documentation/layout/container/)
pub fn container(props: &ContainerProps) -> (class: Classes)
    ensures
        class_names(class) == props.class(),
{
    proof {
        reveal_strlit("container");
        reveal_strlit("is-fluid");
    }
    let mut class = class_from("container");
    push_extra(&mut class, &props.classes);
    push_flag(&mut class, props.fluid, "is-fluid");
    class
}

} // verus!
