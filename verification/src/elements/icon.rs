//! Icons.

use crate::classes::{class_from, class_names, push_extra, push_modifier, with_extra, with_modifier};
use crate::common::{Alignment, Size};
use vstd::prelude::*;
use yew::Classes;

verus! {

#[derive(Clone, Debug, PartialEq)]
pub struct IconProps {
    pub classes: Option<Classes>,
    /// The size of this component; to help prevent page "jumps" during load.
    pub size: Option<Size>,
    /// The alignment of this icon, often used within form controls.
    pub alignment: Option<Alignment>,
}

impl IconProps {
    /// The classes of the icon: `icon`, the extra classes, then the classes of
    /// the size and of the alignment.
    pub open spec fn class(self) -> Seq<Seq<char>> {
        let names = with_extra(seq!["icon"@], self.classes);
        let names = with_modifier(names, self.size);
        with_modifier(names, self.alignment)
    }
}

/// A container for any type of icon font.
///
/// [https://bulma.io/documentation/elements/icon/](https://bulma.io/documentation/elements/icon/)
pub fn icon(props: &IconProps) -> (class: Classes)
    ensures
        class_names(class) == props.class(),
{
    proof {
        reveal_strlit("icon");
    }
    let mut class = class_from("icon");
    push_extra(&mut class, &props.classes);
    push_modifier(&mut class, &props.size);
    push_modifier(&mut class, &props.alignment);
    class
}

} // verus!
