//! Tabs.

use crate::classes::{
    class_from, class_names, push_extra, push_flag, push_modifier, with_extra, with_flag,
    with_modifier,
};
use crate::common::{Alignment, Size};
use vstd::prelude::*;
use yew::Classes;

verus! {

#[derive(Clone, Debug, PartialEq)]
pub struct TabsProps {
    pub classes: Option<Classes>,
    /// The alignment of this component.
    pub alignment: Option<Alignment>,
    /// The size of this component.
    pub size: Option<Size>,
    /// Add a more classic style with borders to this component.
    pub boxed: bool,
    /// Add the "radio button" style to the elements of this component.
    pub toggle: bool,
    /// Make the tab elements of this component rounded.
    pub rounded: bool,
    /// Make this component fullwidth.
    pub fullwidth: bool,
}

impl TabsProps {
    /// The classes of the tabs: `tabs`, the extra classes, the classes of the
    /// alignment and of the size, then one class for each flag that is set.
    pub open spec fn class(self) -> Seq<Seq<char>> {
        let names = with_extra(seq!["tabs"@], self.classes);
        let names = with_modifier(names, self.alignment);
        let names = with_modifier(names, self.size);
        let names = with_flag(names, self.boxed, "is-boxed"@);
        let names = with_flag(names, self.toggle, "is-toggle"@);
        let names = with_flag(names, self.rounded, "is-rounded"@);
        with_flag(names, self.fullwidth, "is-fullwidth"@)
    }
}

/// Simple responsive horizontal navigation tabs, with different styles.
///
/// [https://bulma.io/documentation/components/tabs/](https://bulma.io/documentation/components/tabs/)
pub fn tabs(props: &TabsProps) -> (class: Classes)
    ensures
        class_names(class) == props.class(),
{
    proof {
        reveal_strlit("tabs");
        reveal_strlit("is-boxed");
        reveal_strlit("is-toggle");
        reveal_strlit("is-rounded");
        reveal_strlit("is-fullwidth");
    }
    let mut class = class_from("tabs");
    push_extra(&mut class, &props.classes);
    push_modifier(&mut class, &props.alignment);
    push_modifier(&mut class, &props.size);
    push_flag(&mut class, props.boxed, "is-boxed");
    push_flag(&mut class, props.toggle, "is-toggle");
    push_flag(&mut class, props.rounded, "is-rounded");
    push_flag(&mut class, props.fullwidth, "is-fullwidth");
    class
}

} // verus!
