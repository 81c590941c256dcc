//! Progress bars.

use crate::classes::{class_from, class_names, push_all, with_classes};
use vstd::prelude::*;
use yew::Classes;

verus! {

#[derive(Clone, Debug, PartialEq)]
pub struct ProgressProps {
    pub classes: Classes,
}

/// A native HTML progress bar.
///
/// [https://bulma.io/documentation/elements/progress/](https://bulma.io/documentation/elements/progress/)
pub fn progress(props: &ProgressProps) -> (class: Classes)
    ensures
        class_names(class) == with_classes(seq!["progress"@], class_names(props.classes)),
{
    proof {
        reveal_strlit("progress");
    }
    let mut class = class_from("progress");
    push_all(&mut class, props.classes.clone());
    class
}

} // verus!
