//! Pagination.

use crate::classes::{
    class_from, class_names, push_extra, push_flag, push_modifier, with_extra, with_flag,
    with_modifier, Modifier,
};
use crate::common::{Alignment, Size};
use vstd::prelude::*;
use yew::Classes;

verus! {

#[derive(Clone, Debug, PartialEq)]
pub struct PaginationProps {
    pub classes: Option<Classes>,
    /// The size of this component.
    pub size: Option<Size>,
    /// The alignment of this component.
    pub alignment: Option<Alignment>,
    /// Make the pagination elements rounded.
    pub rounded: bool,
}

impl PaginationProps {
    /// The classes of the pagination: `pagination`, the extra classes, the
    /// classes of the size and of the alignment, and `is-rounded` if asked for.
    pub open spec fn class(self) -> Seq<Seq<char>> {
        let names = with_extra(seq!["pagination"@], self.classes);
        let names = with_modifier(names, self.size);
        let names = with_modifier(names, self.alignment);
        with_flag(names, self.rounded, "is-rounded"@)
    }
}

/// A responsive, usable, and flexible pagination component.
///
/// [https://bulma.io/documentation/components/pagination/](https://bulma.io/documentation/components/pagination/)
pub fn pagination(props: &PaginationProps) -> (class: Classes)
    ensures
        class_names(class) == props.class(),
{
    proof {
        reveal_strlit("pagination");
        reveal_strlit("is-rounded");
    }
    let mut class = class_from("pagination");
    push_extra(&mut class, &props.classes);
    push_modifier(&mut class, &props.size);
    push_modifier(&mut class, &props.alignment);
    push_flag(&mut class, props.rounded, "is-rounded");
    class
}

#[derive(Clone, Debug, PartialEq)]
pub struct PaginationItemProps {
    /// The pagination item type for this component.
    pub item_type: PaginationItemType,
    /// The aria label to use for this element.
    pub label: String,
}

/// A pagination element representing a link to a page number, the previous page or the next page.
///
/// [https://bulma.io/documentation/components/pagination/](https://bulma.io/documentation/components/pagination/)
pub fn pagination_item(props: &PaginationItemProps) -> (class: String)
    ensures
        class@ == props.item_type.class_name(),
{
    props.item_type.to_string()
}

/// A pagination item type.
#[derive(Clone, Debug, PartialEq)]
pub enum PaginationItemType {
    /// A pagination link for a specific page number.
    Link,
    /// A pagination button for the next page.
    Next,
    /// A pagination button for the previous page.
    Previous,
}

impl Modifier for PaginationItemType {
    open spec fn class_name(&self) -> Seq<char> {
        match self {
            PaginationItemType::Link => "pagination-link"@,
            PaginationItemType::Next => "pagination-next"@,
            PaginationItemType::Previous => "pagination-previous"@,
        }
    }

    fn to_string(&self) -> (text: String) {
        proof {
            reveal_strlit("pagination-link");
            reveal_strlit("pagination-next");
            reveal_strlit("pagination-previous");
        }
        match self {
            PaginationItemType::Link => "pagination-link".to_owned(),
            PaginationItemType::Next => "pagination-next".to_owned(),
            PaginationItemType::Previous => "pagination-previous".to_owned(),
        }
    }
}

/// A horizontal ellipsis for pagination range separators.
///
/// [https://bulma.io/documentation/components/pagination/](https://bulma.io/documentation/components/pagination/)
pub fn pagination_ellipsis() -> (class: Classes)
    ensures
        class_names(class) == seq!["pagination-ellipsis"@],
{
    proof {
        reveal_strlit("pagination-ellipsis");
    }
    class_from("pagination-ellipsis")
}

#[derive(Clone, Debug, PartialEq)]
pub struct RouterProps {
    /// The pagination item type for this component.
    pub item_type: PaginationItemType,
}

/// A router anchor button for use in a `Pagination` component.
#[derive(Clone, Copy, Debug, PartialEq, Eq)]
pub struct PaginationItemRouter {}

impl PaginationItemRouter {
    /// The component; it has no state.
    pub fn create() -> PaginationItemRouter {
        PaginationItemRouter {}
    }

    /// The classes of the link: the class of the item type.
    pub fn view(&self, props: &RouterProps) -> (class: Classes)
        ensures
            class_names(class) == seq![props.item_type.class_name()],
    {
        let name = props.item_type.to_string();
        class_from(name.as_str())
    }
}

} // verus!
