//! Media objects.

use crate::classes::{class_from, class_names, push_extra, with_extra};
use vstd::prelude::*;
use yew::Classes;

verus! {

#[derive(Clone, Debug, PartialEq)]
pub struct MediaProps {
    pub classes: Option<Classes>,
    /// The HTML tag to use for this component.
    pub tag: String,
}

/// A UI element for repeatable and nestable content.
///
/// [https://bulma.io/documentation/layout/media-object/](https://bulma.io/documentation/layout/media-object/)
pub fn media(props: &MediaProps) -> (class: Classes)
    ensures
        class_names(class) == with_extra(seq!["media"@], props.classes),
{
    proof {
        reveal_strlit("media");
    }
    let mut class = class_from("media");
    push_extra(&mut class, &props.classes);
    class
}

#[derive(Clone, Debug, PartialEq)]
pub struct MediaLeftProps {
    pub classes: Option<Classes>,
    /// The HTML tag to use for this component.
    pub tag: String,
}

/// Elements to be grouped to the left of the media container.
///
/// [https://bulma.io/documentation/layout/media-object/](https://bulma.io/documentation/layout/media-object/)
pub fn media_left(props: &MediaLeftProps) -> (class: Classes)
    ensures
        class_names(class) == with_extra(seq!["media-left"@], props.classes),
{
    proof {
        reveal_strlit("media-left");
    }
    let mut class = class_from("media-left");
    push_extra(&mut class, &props.classes);
    class
}

#[derive(Clone, Debug, PartialEq)]
pub struct MediaRightProps {
    pub classes: Option<Classes>,
    /// The HTML tag to use for this component.
    pub tag: String,
}

/// Elements to be grouped to the right of the media container.
///
/// [https://bulma.io/documentation/layout/media-object/](https://bulma.io/documentation/layout/media-object/)
pub fn media_right(props: &MediaRightProps) -> (class: Classes)
    ensures
        class_names(class) == with_extra(seq!["media-right"@], props.classes),
{
    proof {
        reveal_strlit("media-right");
    }
    let mut class = class_from("media-right");
    push_extra(&mut class, &props.classes);
    class
}

#[derive(Clone, Debug, PartialEq)]
pub struct MediaContentProps {
    pub classes: Option<Classes>,
    /// The HTML tag to use for this component.
    pub tag: String,
}

/// Elements to be grouped as the center body of the media container.
///
/// [https://bulma.io/documentation/layout/media-object/](https://bulma.io/documentation/layout/media-object/)
pub fn media_content(props: &MediaContentProps) -> (class: Classes)
    ensures
        class_names(class) == with_extra(seq!["media-content"@], props.classes),
{
    proof {
        reveal_strlit("media-content");
    }
    let mut class = class_from("media-content");
    push_extra(&mut class, &props.classes);
    class
}

} // verus!
