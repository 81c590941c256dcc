//! Responsive columns.

use crate::classes::{class_from, class_names, push_extra, push_flag, with_extra, with_flag};
use vstd::prelude::*;
use yew::Classes;

verus! {

#[derive(Clone, Debug, PartialEq)]
pub struct ColumnsProps {
    pub classes: Option<Classes>,
    /// Align child columns vertically.
    pub vcentered: bool,
    /// Allow for multiline rows.
    pub multiline: bool,
    /// Center all child columns within their row.
    pub centered: bool,
}

impl ColumnsProps {
    /// The classes of the container: `columns`, the extra classes, then one
    /// class for each flag that is set.
    pub open spec fn class(self) -> Seq<Seq<char>> {
        let names = with_extra(seq!["columns"@], self.classes);
        let names = with_flag(names, self.vcentered, "is-vcentered"@);
        let names = with_flag(names, self.multiline, "is-multiline"@);
        with_flag(names, self.centered, "is-centered"@)
    }
}

/// The container for a set of responsive columns.
///
/// [https://bulma.io/documentation/columns/](https://bulma.io/documentation/columns/)
pub fn columns(props: &ColumnsProps) -> (class: Classes)
    ensures
        class_names(class) == props.class(),
{
    proof {
        reveal_strlit("columns");
        reveal_strlit("is-vcentered");
        reveal_strlit("is-multiline");
        reveal_strlit("is-centered");
    }
    let mut class = class_from("columns");
    push_extra(&mut class, &props.classes);
    push_flag(&mut class, props.vcentered, "is-vcentered");
    push_flag(&mut class, props.multiline, "is-multiline");
    push_flag(&mut class, props.centered, "is-centered");
    class
}

#[derive(Clone, Debug, PartialEq)]
pub struct ColumnProps {
    pub classes: Option<Classes>,
}

/// A flexbox-based responsive column.
///
/// [https://bulma.io/documentation/columns/](https://bulma.io/documentation/columns/)
///
/// This component has a very large number of valid class combinations which users may want.
/// For now you are encouraged to add classes to this component manually via the `classes` prop.
pub fn column(props: &ColumnProps) -> (class: Classes)
    ensures
        class_names(class) == with_extra(seq!["column"@], props.classes),
{
    proof {
        reveal_strlit("column");
    }
    let mut class = class_from("column");
    push_extra(&mut class, &props.classes);
    class
}

} // verus!
