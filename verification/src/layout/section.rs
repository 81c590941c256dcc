//! Sections.

use crate::classes::{
    class_from, class_names, push_extra, push_modifier, with_extra, with_modifier, Modifier,
};
use vstd::prelude::*;
use yew::Classes;

verus! {

#[derive(Clone, Debug, PartialEq)]
pub struct SectionProps {
    pub classes: Option<Classes>,
    /// A size modifier to control spacing.
    pub size: Option<SectionSize>,
}

impl SectionProps {
    /// The classes of the section: `section`, the extra classes, then the class
    /// of the size.
    pub open spec fn class(self) -> Seq<Seq<char>> {
        let names = with_extra(seq!["section"@], self.classes);
        with_modifier(names, self.size)
    }
}

/// A simple container to divide your page into sections.
///
/// [https://bulma.io/documentation/layout/section/](https://bulma.io/documentation/layout/section/)
pub fn section(props: &SectionProps) -> (class: Classes)
    ensures
        class_names(class) == props.class(),
{
    proof {
        reveal_strlit("section");
    }
    let mut class = class_from("section");
    push_extra(&mut class, &props.classes);
    push_modifier(&mut class, &props.size);
    class
}

/// The 2 sizes available for sections, which controls spacing.
#[derive(Clone, Debug, PartialEq)]
pub enum SectionSize {
    Medium,
    Large,
}

impl Modifier for SectionSize {
    open spec fn class_name(&self) -> Seq<char> {
        match self {
            SectionSize::Medium => "is-medium"@,
            SectionSize::Large => "is-large"@,
        }
    }

    fn to_string(&self) -> (text: String) {
        proof {
            reveal_strlit("is-medium");
            reveal_strlit("is-large");
        }
        match self {
            SectionSize::Medium => "is-medium".to_owned(),
            SectionSize::Large => "is-large".to_owned(),
        }
    }
}

} // verus!
