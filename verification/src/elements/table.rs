//! Tables.

use crate::classes::{class_from, class_names, push_extra, push_flag, with_extra, with_flag};
use vstd::prelude::*;
use yew::Classes;

verus! {

#[derive(Clone, Debug, PartialEq)]
pub struct TableProps {
    pub classes: Option<Classes>,
    /// Add borders to all the cells.
    pub bordered: bool,
    /// Add stripes to the table.
    pub striped: bool,
    /// Make the cells narrower.
    pub narrow: bool,
    /// Add a hover effect on each row.
    pub hoverable: bool,
    /// Make the table fullwidth.
    pub fullwidth: bool,
    /// Make the table scrollable, wrapping the table in a `div.table-container`.
    pub scrollable: bool,
}

impl TableProps {
    /// The classes of the table: `table`, the extra classes, then one class for
    /// each flag that is set. Scrolling is a matter of the container, not of
    /// the table.
    pub open spec fn class(self) -> Seq<Seq<char>> {
        let names = with_extra(seq!["table"@], self.classes);
        let names = with_flag(names, self.bordered, "is-bordered"@);
        let names = with_flag(names, self.striped, "is-striped"@);
        let names = with_flag(names, self.narrow, "is-narrow"@);
        let names = with_flag(names, self.hoverable, "is-hoverable"@);
        with_flag(names, self.fullwidth, "is-fullwidth"@)
    }
}

/// An HTML table component.
///
/// [https://bulma.io/documentation/elements/table/](https://bulma.io/documentation/elements/table/)
pub fn table(props: &TableProps) -> (class: Classes)
    ensures
        class_names(class) == props.class(),
{
    proof {
        reveal_strlit("table");
        reveal_strlit("is-bordered");
        reveal_strlit("is-striped");
        reveal_strlit("is-narrow");
        reveal_strlit("is-hoverable");
        reveal_strlit("is-fullwidth");
    }
    let mut class = class_from("table");
    push_extra(&mut class, &props.classes);
    push_flag(&mut class, props.bordered, "is-bordered");
    push_flag(&mut class, props.striped, "is-striped");
    push_flag(&mut class, props.narrow, "is-narrow");
    push_flag(&mut class, props.hoverable, "is-hoverable");
    push_flag(&mut class, props.fullwidth, "is-fullwidth");
    class
}

} // verus!
