//! Panels.

use crate::classes::{class_from, class_names, push_extra, push_flag, with_extra, with_flag};
use vstd::prelude::*;
use yew::Classes;

verus! {

#[derive(Clone, Debug, PartialEq)]
pub struct PanelProps {
    pub classes: Option<Classes>,
}

/// A composable panel, for compact controls.
///
/// [https://bulma.io/documentation/components/panel/](https://bulma.io/documentation/components/panel/)
pub fn panel(props: &PanelProps) -> (class: Classes)
    ensures
        class_names(class) == with_extra(seq!["panel"@], props.classes),
{
    proof {
        reveal_strlit("panel");
    }
    let mut class = class_from("panel");
    push_extra(&mut class, &props.classes);
    class
}

#[derive(Clone, Debug, PartialEq)]
pub struct PanelTabsProps {}

/// A container for the navigation tabs of a panel.
///
/// [https://bulma.io/documentation/components/panel/](https://bulma.io/documentation/components/panel/)
pub fn panel_tabs(_props: &PanelTabsProps) -> (class: Classes)
    ensures
        class_names(class) == seq!["panel-tabs"@],
{
    proof {
        reveal_strlit("panel-tabs");
    }
    class_from("panel-tabs")
}

#[derive(Clone, Debug, PartialEq)]
pub struct PanelBlockProps {
    /// The HTML tag to use for this component.
    pub tag: String,
    /// Make this element the active / highlighted element.
    pub active: bool,
}

/// An individual element of the panel.
///
/// [https://bulma.io/documentation/components/panel/](https://bulma.io/documentation/components/panel/)
pub fn panel_block(props: &PanelBlockProps) -> (class: Classes)
    ensures
        class_names(class) == with_flag(seq!["panel-block"@], props.active, "is-active"@),
{
    proof {
        reveal_strlit("panel-block");
        reveal_strlit("is-active");
    }
    let mut class = class_from("panel-block");
    push_flag(&mut class, props.active, "is-active");
    class
}

} // verus!
