//! File upload inputs.

use crate::classes::{
    class_from, class_names, push_extra, push_flag, push_modifier, with_extra, with_flag,
    with_modifier,
};
use crate::common::{Alignment, Size};
use vstd::prelude::*;
use yew::Classes;

verus! {

#[derive(Clone, Debug, PartialEq)]
pub struct FileProps {
    /// The `name` attribute for this form element.
    pub name: String,
    /// The display text for the file selector.
    pub selector_label: String,
    pub classes: Option<Classes>,
    /// An option to control if file names will be displayed; if a value is provided, then the
    /// `has-name` class will be added to this form element and the given value will be used as a
    /// placeholder until files are selected.
    pub has_name: Option<String>,
    /// Move the CTA element to the right side of the component.
    pub right: bool,
    /// Expand the file display name to the full width of the parent.
    pub fullwidth: bool,
    /// Display as a boxed block.
    pub boxed: bool,
    /// Allow multiple files to be selected.
    pub multiple: bool,
    /// The size of this component.
    pub size: Option<Size>,
    /// The alignment of this component within its parent.
    pub alignment: Option<Alignment>,
}

impl FileProps {
    /// The classes of the input: `file`, the extra classes, `has-name` if file
    /// names are displayed, one class for each flag that is set, then the
    /// classes of the size and of the alignment.
    pub open spec fn class(self) -> Seq<Seq<char>> {
        let names = with_extra(seq!["file"@], self.classes);
        let names = with_flag(names, self.has_name.is_some(), "has-name"@);
        let names = with_flag(names, self.right, "is-right"@);
        let names = with_flag(names, self.fullwidth, "is-fullwidth"@);
        let names = with_flag(names, self.boxed, "is-boxed"@);
        let names = with_modifier(names, self.size);
        with_modifier(names, self.alignment)
    }
}

/// A custom file upload input.
///
/// [https://bulma.io/documentation/form/file/](https://bulma.io/documentation/form/file/)
///
/// All form components are controlled components. This means that the value of the field must
/// be provided from a parent component, and changes to this component are propagated to the parent
/// component via callback.
pub fn file(props: &FileProps) -> (class: Classes)
    ensures
        class_names(class) == props.class(),
{
    proof {
        reveal_strlit("file");
        reveal_strlit("has-name");
        reveal_strlit("is-right");
        reveal_strlit("is-fullwidth");
        reveal_strlit("is-boxed");
    }
    let mut class = class_from("file");
    push_extra(&mut class, &props.classes);
    push_flag(&mut class, props.has_name.is_some(), "has-name");
    push_flag(&mut class, props.right, "is-right");
    push_flag(&mut class, props.fullwidth, "is-fullwidth");
    push_flag(&mut class, props.boxed, "is-boxed");
    push_modifier(&mut class, &props.size);
    push_modifier(&mut class, &props.alignment);
    class
}

} // verus!
