//! Breadcrumbs.

use crate::classes::{
    class_from, class_names, push_extra, push_modifier, with_extra, with_modifier, Modifier,
};
use crate::common::Alignment;
use vstd::prelude::*;
use yew::Classes;

verus! {

#[derive(Clone, Debug, PartialEq)]
pub struct BreadcrumbProps {
    pub classes: Option<Classes>,
    /// The size of this component.
    pub size: Option<BreadcrumbSize>,
    /// The alignment of this component.
    pub alignment: Option<Alignment>,
    /// The separator type to use between breadcrumb segments.
    pub separator: Option<BreadcrumbSeparator>,
}

impl BreadcrumbProps {
    /// The classes of the breadcrumb: `breadcrumb`, the extra classes, then the
    /// classes of the size, of the alignment and of the separator.
    pub open spec fn class(self) -> Seq<Seq<char>> {
        let names = with_extra(seq!["breadcrumb"@], self.classes);
        let names = with_modifier(names, self.size);
        let names = with_modifier(names, self.alignment);
        with_modifier(names, self.separator)
    }
}

/// A simple breadcrumb component to improve your navigation experience.
///
/// [https://bulma.io/documentation/components/breadcrumb/](https://bulma.io/documentation/components/breadcrumb/)
pub fn breadcrumb(props: &BreadcrumbProps) -> (class: Classes)
    ensures
        class_names(class) == props.class(),
{
    proof {
        reveal_strlit("breadcrumb");
    }
    let mut class = class_from("breadcrumb");
    push_extra(&mut class, &props.classes);
    push_modifier(&mut class, &props.size);
    push_modifier(&mut class, &props.alignment);
    push_modifier(&mut class, &props.separator);
    class
}

/// The 3 sizes available for a breadcrumb.
///
/// https://bulma.io/documentation/components/breadcrumb/#sizes
#[derive(Clone, Debug, PartialEq)]
pub enum BreadcrumbSize {
    Small,
    Medium,
    Large,
}

impl Modifier for BreadcrumbSize {
    open spec fn class_name(&self) -> Seq<char> {
        match self {
            BreadcrumbSize::Small => "are-small"@,
            BreadcrumbSize::Medium => "are-medium"@,
            BreadcrumbSize::Large => "are-large"@,
        }
    }

    fn to_string(&self) -> (text: String) {
        proof {
            reveal_strlit("are-small");
            reveal_strlit("are-medium");
            reveal_strlit("are-large");
        }
        match self {
            BreadcrumbSize::Small => "are-small".to_owned(),
            BreadcrumbSize::Medium => "are-medium".to_owned(),
            BreadcrumbSize::Large => "are-large".to_owned(),
        }
    }
}

/// The 4 additional separators for a breadcrumb.
///
/// https://bulma.io/documentation/components/breadcrumb/#alternative-separators
#[derive(Clone, Debug, PartialEq)]
pub enum BreadcrumbSeparator {
    Arrow,
    Bullet,
    Dot,
    Succeeds,
}

impl Modifier for BreadcrumbSeparator {
    open spec fn class_name(&self) -> Seq<char> {
        match self {
            BreadcrumbSeparator::Arrow => "has-arrow-separator"@,
            BreadcrumbSeparator::Bullet => "has-bullet-separator"@,
            BreadcrumbSeparator::Dot => "has-dot-separator"@,
            BreadcrumbSeparator::Succeeds => "has-succeeds-separator"@,
        }
    }

    fn to_string(&self) -> (text: String) {
        proof {
            reveal_strlit("has-arrow-separator");
            reveal_strlit("has-bullet-separator");
            reveal_strlit("has-dot-separator");
            reveal_strlit("has-succeeds-separator");
        }
        match self {
            BreadcrumbSeparator::Arrow => "has-arrow-separator".to_owned(),
            BreadcrumbSeparator::Bullet => "has-bullet-separator".to_owned(),
            BreadcrumbSeparator::Dot => "has-dot-separator".to_owned(),
            BreadcrumbSeparator::Succeeds => "has-succeeds-separator".to_owned(),
        }
    }
}

} // verus!
