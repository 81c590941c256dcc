//! Tags.

use crate::classes::{
    class_from, class_names, push_extra, push_flag, push_modifier, with_extra, with_flag,
    with_modifier,
};
use crate::common::Size;
use vstd::prelude::*;
use yew::Classes;

verus! {

#[derive(Clone, Debug, PartialEq)]
pub struct TagProps {
    pub classes: Option<Classes>,
    /// The HTML tag to use for this component.
    pub tag: String,
    /// Make this tag rounded.
    pub rounded: bool,
    /// Turn this tag into a delete button.
    pub delete: bool,
    /// The size for this component.
    pub size: Option<Size>,
}

impl TagProps {
    /// The classes of the tag: `tag`, the extra classes, `is-rounded` and
    /// `is-delete` as asked for, then the class of the size.
    pub open spec fn class(self) -> Seq<Seq<char>> {
        let names = with_extra(seq!["tag"@], self.classes);
        let names = with_flag(names, self.rounded, "is-rounded"@);
        let names = with_flag(names, self.delete, "is-delete"@);
        with_modifier(names, self.size)
    }
}

/// A small tag label to insert anywhere.
///
/// [https://bulma.io/documentation/elements/tag/](https://bulma.io/documentation/elements/tag/)
pub fn tag(props: &TagProps) -> (class: Classes)
    ensures
        class_names(class) == props.class(),
{
    proof {
        reveal_strlit("tag");
        reveal_strlit("is-rounded");
        reveal_strlit("is-delete");
    }
    let mut class = class_from("tag");
    push_extra(&mut class, &props.classes);
    push_flag(&mut class, props.rounded, "is-rounded");
    push_flag(&mut class, props.delete, "is-delete");
    push_modifier(&mut class, &props.size);
    class
}

#[derive(Clone, Debug, PartialEq)]
pub struct TagsProps {
    pub classes: Option<Classes>,
    /// Attach two tags together; this requires that this component wraps two `Tag` components.
    pub has_addons: bool,
}

impl TagsProps {
    /// The classes of the container: `tags`, the extra classes, and
    /// `has-addons` if asked for.
    pub open spec fn class(self) -> Seq<Seq<char>> {
        let names = with_extra(seq!["tags"@], self.classes);
        with_flag(names, self.has_addons, "has-addons"@)
    }
}

/// A container for a list of tags.
///
/// [https://bulma.io/documentation/elements/tag/](https://bulma.io/documentation/elements/tag/)
pub fn tags(props: &TagsProps) -> (class: Classes)
    ensures
        class_names(class) == props.class(),
{
    proof {
        reveal_strlit("tags");
        reveal_strlit("has-addons");
    }
    let mut class = class_from("tags");
    push_extra(&mut class, &props.classes);
    push_flag(&mut class, props.has_addons, "has-addons");
    class
}

} // verus!
