//! Content wrappers.

use crate::classes::{class_from, class_names, push_extra, with_extra};
use vstd::prelude::*;
use yew::Classes;

verus! {

#[derive(Clone, Debug, PartialEq)]
pub struct ContentProps {
    pub classes: Option<Classes>,
    /// The HTML tag to use for this component.
    pub tag: String,
}

/// A single component to wrap WYSIWYG generated content, where only HTML tags are available.
///
/// [https://bulma.io/documentation/elements/content/](https://bulma.io/documentation/elements/content/)
pub fn content(props: &ContentProps) -> (class: Classes)
    ensures
        class_names(class) == with_extra(seq!["content"@], props.classes),
{
    proof {
        reveal_strlit("content");
    }
    let mut class = class_from("content");
    push_extra(&mut class, &props.classes);
    class
}

} // verus!
