//! Levels.

use crate::classes::{class_from, class_names, push_extra, with_extra};
use vstd::prelude::*;
use yew::Classes;

verus! {

#[derive(Clone, Debug, PartialEq)]
pub struct LevelProps {
    pub classes: Option<Classes>,
    /// The HTML tag to use for this component.
    pub tag: String,
}

/// A multi-purpose horizontal level, which can contain almost any other element.
///
/// [https://bulma.io/documentation/layout/level/](https://bulma.io/documentation/layout/level/)
pub fn level(props: &LevelProps) -> (class: Classes)
    ensures
        class_names(class) == with_extra(seq!["level"@], props.classes),
{
    proof {
        reveal_strlit("level");
    }
    let mut class = class_from("level");
    push_extra(&mut class, &props.classes);
    class
}

#[derive(Clone, Debug, PartialEq)]
pub struct LevelLeftProps {
    pub classes: Option<Classes>,
    /// The HTML tag to use for this component.
    pub tag: String,
}

/// A container for level elements to be grouped to the left of the container.
///
/// [https://bulma.io/documentation/layout/level/](https://bulma.io/documentation/layout/level/)
pub fn level_left(props: &LevelLeftProps) -> (class: Classes)
    ensures
        class_names(class) == with_extra(seq!["level-left"@], props.classes),
{
    proof {
        reveal_strlit("level-left");
    }
    let mut class = class_from("level-left");
    push_extra(&mut class, &props.classes);
    class
}

#[derive(Clone, Debug, PartialEq)]
pub struct LevelRightProps {
    pub classes: Option<Classes>,
    /// The HTML tag to use for this component.
    pub tag: String,
}

/// A container for level elements to be grouped to the right of the container.
///
/// [https://bulma.io/documentation/layout/level/](https://bulma.io/documentation/layout/level/)
pub fn level_right(props: &LevelRightProps) -> (class: Classes)
    ensures
        class_names(class) == with_extra(seq!["level-right"@], props.classes),
{
    proof {
        reveal_strlit("level-right");
    }
    let mut class = class_from("level-right");
    push_extra(&mut class, &props.classes);
    class
}

#[derive(Clone, Debug, PartialEq)]
pub struct LevelItemProps {
    pub classes: Option<Classes>,
    /// The HTML tag to use for this component.
    pub tag: String,
}

/// An individual item of a level container.
///
/// [https://bulma.io/documentation/layout/level/](https://bulma.io/documentation/layout/level/)
pub fn level_item(props: &LevelItemProps) -> (class: Classes)
    ensures
        class_names(class) == with_extra(seq!["level-item"@], props.classes),
{
    proof {
        reveal_strlit("level-item");
    }
    let mut class = class_from("level-item");
    push_extra(&mut class, &props.classes);
    class
}

} // verus!
