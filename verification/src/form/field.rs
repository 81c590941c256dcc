//! Fields: containers for form controls, with a label and a help text.

use crate::classes::{
    class_from, class_names, push_all, push_class, push_flag, push_modifier, with_class,
    with_classes, with_flag, with_modifier, Modifier,
};
use vstd::prelude::*;
use yew::Classes;

verus! {

#[derive(Clone, Debug, PartialEq)]
pub struct FieldProps {
    pub classes: Classes,
    /// A text label for the field.
    pub label: Option<String>,
    /// Extra classes for the label container.
    pub label_classes: Classes,
    /// A help message for the field.
    pub help: Option<String>,
    /// Extra classes for the help message container.
    pub help_classes: Classes,
    /// A convenience bool to add the `is-danger` class to the help classes when `true`.
    pub help_has_error: bool,
    /// Has icons on the left of the field's controls.
    pub icons_left: bool,
    /// Has icons on the right of the field's controls.
    pub icons_right: bool,
    /// Allow addons to the field's controls.
    pub addons: bool,
    /// Alignment for the field's addons.
    pub addons_align: Option<AddonsAlign>,
    /// All controls in this field should be grouped.
    pub grouped: bool,
    /// Alignment for grouped controls.
    pub grouped_align: Option<GroupedAlign>,
    /// Allow the grouped controls to span multiple lines.
    pub multiline: bool,
    /// Make this a horizontal field.
    pub horizontal: bool,
}

impl FieldProps {
    /// The classes of the field: `field`, the extra classes, one class for
    /// each flag that is set, then the classes of the two alignments.
    pub open spec fn class(self) -> Seq<Seq<char>> {
        let names = with_classes(seq!["field"@], class_names(self.classes));
        let names = with_flag(names, self.icons_left, "has-icons-left"@);
        let names = with_flag(names, self.icons_right, "has-icons-right"@);
        let names = with_flag(names, self.addons, "has-addons"@);
        let names = with_flag(names, self.grouped, "is-grouped"@);
        let names = with_flag(names, self.multiline, "is-multiline"@);
        let names = with_modifier(names, self.addons_align);
        with_modifier(names, self.grouped_align)
    }

    /// The label of the field, if it has one. In a horizontal field the
    /// `label` element stands in a container that has the extra label classes
    /// and `field-label`; in any other the `label` element itself has the
    /// extra label classes and `label`.
    pub open spec fn label_parts(self) -> Option<FieldLabelParts> {
        match self.label {
            Some(text) => Some(
                if self.horizontal {
                    FieldLabelParts {
                        text: text@,
                        container_class: Some(
                            with_class(class_names(self.label_classes), "field-label"@),
                        ),
                        class: seq!["label"@],
                    }
                } else {
                    FieldLabelParts {
                        text: text@,
                        container_class: None,
                        class: with_class(class_names(self.label_classes), "label"@),
                    }
                },
            ),
            None => None,
        }
    }

    /// The help message of the field, if it has one: its classes are `help`,
    /// the extra help classes, and `is-danger` if it reports an error.
    pub open spec fn help_parts(self) -> Option<FieldHelpParts> {
        match self.help {
            Some(text) => Some(
                FieldHelpParts {
                    text: text@,
                    class: with_flag(
                        with_classes(seq!["help"@], class_names(self.help_classes)),
                        self.help_has_error,
                        "is-danger"@,
                    ),
                },
            ),
            None => None,
        }
    }

    /// The classes of the container of the controls. Only a horizontal field
    /// has one.
    pub open spec fn body_class(self) -> Option<Seq<Seq<char>>> {
        if self.horizontal {
            Some(seq!["field-body"@])
        } else {
            None
        }
    }
}

/// The names in an optional class list.
pub open spec fn optional_class_names(classes: Option<Classes>) -> Option<Seq<Seq<char>>> {
    match classes {
        Some(classes) => Some(class_names(classes)),
        None => None,
    }
}

/// What the label of a field is.
pub struct FieldLabelParts {
    pub text: Seq<char>,
    pub container_class: Option<Seq<Seq<char>>>,
    pub class: Seq<Seq<char>>,
}

/// What the help message of a field is.
pub struct FieldHelpParts {
    pub text: Seq<char>,
    pub class: Seq<Seq<char>>,
}

/// What the markup of the label of a field is made from.
#[derive(Debug)]
pub struct FieldLabelMarkup {
    /// The text of the label.
    pub text: String,
    /// The classes of the container around the `label` element, where there is one.
    pub container_class: Option<Classes>,
    /// The classes of the `label` element.
    pub class: Classes,
}

impl View for FieldLabelMarkup {
    type V = FieldLabelParts;

    open spec fn view(&self) -> FieldLabelParts {
        FieldLabelParts {
            text: self.text@,
            container_class: optional_class_names(self.container_class),
            class: class_names(self.class),
        }
    }
}

/// What the markup of the help message of a field is made from.
#[derive(Debug)]
pub struct FieldHelpMarkup {
    /// The text of the message.
    pub text: String,
    /// The classes of the message.
    pub class: Classes,
}

impl View for FieldHelpMarkup {
    type V = FieldHelpParts;

    open spec fn view(&self) -> FieldHelpParts {
        FieldHelpParts { text: self.text@, class: class_names(self.class) }
    }
}

/// What the markup of a field is made from.
#[derive(Debug)]
pub struct FieldMarkup {
    /// The classes of the field.
    pub class: Classes,
    /// The label, where the field has one.
    pub label: Option<FieldLabelMarkup>,
    /// The classes of the container of the controls, where there is one.
    pub body_class: Option<Classes>,
    /// The help message, where the field has one.
    pub help: Option<FieldHelpMarkup>,
}

impl FieldMarkup {
    /// The label as plain values.
    pub open spec fn label_parts(self) -> Option<FieldLabelParts> {
        match self.label {
            Some(label) => Some(label@),
            None => None,
        }
    }

    /// The help message as plain values.
    pub open spec fn help_parts(self) -> Option<FieldHelpParts> {
        match self.help {
            Some(help) => Some(help@),
            None => None,
        }
    }
}

/// A container for form controls
pub fn field(props: &FieldProps) -> (markup: FieldMarkup)
    ensures
        class_names(markup.class) == props.class(),
        markup.label_parts() == props.label_parts(),
        optional_class_names(markup.body_class) == props.body_class(),
        markup.help_parts() == props.help_parts(),
{
    proof {
        reveal_strlit("field");
        reveal_strlit("has-icons-left");
        reveal_strlit("has-icons-right");
        reveal_strlit("has-addons");
        reveal_strlit("is-grouped");
        reveal_strlit("is-multiline");
        reveal_strlit("field-label");
        reveal_strlit("label");
        reveal_strlit("help");
        reveal_strlit("is-danger");
        reveal_strlit("field-body");
    }
    let mut class = class_from("field");
    push_all(&mut class, props.classes.clone());
    push_flag(&mut class, props.icons_left, "has-icons-left");
    push_flag(&mut class, props.icons_right, "has-icons-right");
    push_flag(&mut class, props.addons, "has-addons");
    push_flag(&mut class, props.grouped, "is-grouped");
    push_flag(&mut class, props.multiline, "is-multiline");
    push_modifier(&mut class, &props.addons_align);
    push_modifier(&mut class, &props.grouped_align);

    // Build the label if label content is provided.
    let label = match &props.label {
        Some(label_content) => {
            let mut label_classes = props.label_classes.clone();
            if props.horizontal {
                push_class(&mut label_classes, "field-label");
                Some(
                    FieldLabelMarkup {
                        text: label_content.clone(),
                        container_class: Some(label_classes),
                        class: class_from("label"),
                    },
                )
            } else {
                push_class(&mut label_classes, "label");
                Some(
                    FieldLabelMarkup {
                        text: label_content.clone(),
                        container_class: None,
                        class: label_classes,
                    },
                )
            }
        },
        None => None,
    };

    // Build the help label if present.
    let help = match &props.help {
        Some(help_content) => {
            let mut help_class = class_from("help");
            push_all(&mut help_class, props.help_classes.clone());
            push_flag(&mut help_class, props.help_has_error, "is-danger");
            Some(FieldHelpMarkup { text: help_content.clone(), class: help_class })
        },
        None => None,
    };

    // Build the body section.
    let body_class = if props.horizontal {
        Some(class_from("field-body"))
    } else {
        None
    };

    FieldMarkup { class, label, body_class, help }
}

/// The two alignment options available for field addons.
///
/// https://bulma.io/documentation/form/general/
#[derive(Clone, Debug, PartialEq, Eq)]
pub enum AddonsAlign {
    Centered,
    Right,
}

impl Modifier for AddonsAlign {
    open spec fn class_name(&self) -> Seq<char> {
        match self {
            AddonsAlign::Centered => "has-addons-centered"@,
            AddonsAlign::Right => "has-addons-right"@,
        }
    }

    fn to_string(&self) -> (text: String) {
        proof {
            reveal_strlit("has-addons-centered");
            reveal_strlit("has-addons-right");
        }
        match self {
            AddonsAlign::Centered => "has-addons-centered".to_owned(),
            AddonsAlign::Right => "has-addons-right".to_owned(),
        }
    }
}

/// The two alignment options available for grouped field controls.
///
/// https://bulma.io/documentation/form/general/
#[derive(Clone, Debug, PartialEq, Eq)]
pub enum GroupedAlign {
    Centered,
    Right,
}

impl Modifier for GroupedAlign {
    open spec fn class_name(&self) -> Seq<char> {
        match self {
            GroupedAlign::Centered => "is-grouped-centered"@,
            GroupedAlign::Right => "is-grouped-right"@,
        }
    }

    fn to_string(&self) -> (text: String) {
        proof {
            reveal_strlit("is-grouped-centered");
            reveal_strlit("is-grouped-right");
        }
        match self {
            GroupedAlign::Centered => "is-grouped-centered".to_owned(),
            GroupedAlign::Right => "is-grouped-right".to_owned(),
        }
    }
}

/// The three sizes available for horizontal field labels.
///
/// https://bulma.io/documentation/form/general/#horizontal-form
#[derive(Clone, Debug, PartialEq, Eq)]
pub enum LabelSize {
    Small,
    Medium,
    Large,
}

impl Modifier for LabelSize {
    open spec fn class_name(&self) -> Seq<char> {
        match self {
            LabelSize::Small => "is-small"@,
            LabelSize::Medium => "is-medium"@,
            LabelSize::Large => "is-large"@,
        }
    }

    fn to_string(&self) -> (text: String) {
        proof {
            reveal_strlit("is-small");
            reveal_strlit("is-medium");
            reveal_strlit("is-large");
        }
        match self {
            LabelSize::Small => "is-small".to_owned(),
            LabelSize::Medium => "is-medium".to_owned(),
            LabelSize::Large => "is-large".to_owned(),
        }
    }
}

} // verus!
