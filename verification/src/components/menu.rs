//! Menus.

use crate::classes::{class_from, class_names, push_extra, with_extra};
use vstd::prelude::*;
use yew::Classes;

verus! {

#[derive(Clone, Debug, PartialEq)]
pub struct MenuProps {
    pub classes: Option<Classes>,
}

/// A simple menu, for any type of vertical navigation.
///
/// [https://bulma.io/documentation/components/menu/](https://bulma.io/documentation/components/menu/)
pub fn menu(props: &MenuProps) -> (class: Classes)
    ensures
        class_names(class) == with_extra(seq!["menu"@], props.classes),
{
    proof {
        reveal_strlit("menu");
    }
    let mut class = class_from("menu");
    push_extra(&mut class, &props.classes);
    class
}

#[derive(Clone, Debug, PartialEq)]
pub struct MenuListProps {
    pub classes: Option<Classes>,
}

/// A container for menu list `li` elements.
///
/// [https://bulma.io/documentation/components/menu/](https://bulma.io/documentation/components/menu/)
pub fn menu_list(props: &MenuListProps) -> (class: Classes)
    ensures
        class_names(class) == with_extra(seq!["menu-list"@], props.classes),
{
    proof {
        reveal_strlit("menu-list");
    }
    let mut class = class_from("menu-list");
    push_extra(&mut class, &props.classes);
    class
}

#[derive(Clone, Debug, PartialEq)]
pub struct MenuLabelProps {
    pub classes: Option<Classes>,
    /// The text of the label.
    pub text: String,
}

/// A label for a section of the menu.
///
/// [https://bulma.io/documentation/components/menu/](https://bulma.io/documentation/components/menu/)
pub fn menu_label(props: &MenuLabelProps) -> (class: Classes)
    ensures
        class_names(class) == with_extra(seq!["menu-label"@], props.classes),
{
    proof {
        reveal_strlit("menu-label");
    }
    let mut class = class_from("menu-label");
    push_extra(&mut class, &props.classes);
    class
}

} // verus!
