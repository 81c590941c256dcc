//! Buttons.

use crate::classes::{
    class_from, class_names, has_class, new_classes, push_class, push_extra, push_flag,
    push_modifier, with_class, with_extra, with_flag, with_modifier, Modifier,
};
use crate::common::{or_empty, text_or_empty};
use vstd::prelude::*;
use yew::Classes;

verus! {

#[derive(Clone, Debug, PartialEq)]
pub struct ButtonsProps {
    pub classes: Option<Classes>,
    /// The size for all buttons within this group.
    pub size: Option<ButtonGroupSize>,
}

impl ButtonsProps {
    /// The classes of the group: `buttons`, the extra classes, then the class
    /// of the size.
    pub open spec fn class(self) -> Seq<Seq<char>> {
        with_modifier(with_extra(seq!["buttons"@], self.classes), self.size)
    }
}

/// A container for a group of buttons.
///
/// [https://bulma.io/documentation/elements/button/](https://bulma.io/documentation/elements/button/)
pub fn buttons(props: &ButtonsProps) -> (class: Classes)
    ensures
        class_names(class) == props.class(),
{
    proof {
        reveal_strlit("buttons");
    }
    let mut class = class_from("buttons");
    push_extra(&mut class, &props.classes);
    push_modifier(&mut class, &props.size);
    class
}

/// The 3 sizes available for a button group.
///
/// https://bulma.io/documentation/elements/button/#sizes
#[derive(Clone, Debug, PartialEq)]
pub enum ButtonGroupSize {
    Small,
    Medium,
    Large,
}

impl Modifier for ButtonGroupSize {
    open spec fn class_name(&self) -> Seq<char> {
        match self {
            ButtonGroupSize::Small => "are-small"@,
            ButtonGroupSize::Medium => "are-medium"@,
            ButtonGroupSize::Large => "are-large"@,
        }
    }

    fn to_string(&self) -> (text: String) {
        proof {
            reveal_strlit("are-small");
            reveal_strlit("are-medium");
            reveal_strlit("are-large");
        }
        match self {
            ButtonGroupSize::Small => "are-small".to_owned(),
            ButtonGroupSize::Medium => "are-medium".to_owned(),
            ButtonGroupSize::Large => "are-large".to_owned(),
        }
    }
}

/// The classes of a button: `button`, the extra classes, `is-loading` and
/// `is-static` as asked for.
pub open spec fn button_class(extra: Option<Classes>, loading: bool, is_static: bool) -> Seq<
    Seq<char>,
> {
    let names = with_extra(seq!["button"@], extra);
    let names = with_flag(names, loading, "is-loading"@);
    with_flag(names, is_static, "is-static"@)
}

fn button_classes(extra: &Option<Classes>, loading: bool, is_static: bool) -> (class: Classes)
    ensures
        class_names(class) == button_class(*extra, loading, is_static),
{
    proof {
        reveal_strlit("button");
        reveal_strlit("is-loading");
        reveal_strlit("is-static");
    }
    let mut class = class_from("button");
    push_extra(&mut class, extra);
    push_flag(&mut class, loading, "is-loading");
    push_flag(&mut class, is_static, "is-static");
    class
}

#[derive(Clone, Debug, PartialEq)]
pub struct ButtonProps {
    pub classes: Option<Classes>,
    /// Render a loading spinner within this component.
    pub loading: bool,
    /// Make this component static.
    pub is_static: bool,
    /// Disable this component.
    pub disabled: bool,
}

/// A button element.
///
/// [https://bulma.io/documentation/elements/button/](https://bulma.io/documentation/elements/button/)
pub fn button(props: &ButtonProps) -> (class: Classes)
    ensures
        class_names(class) == button_class(props.classes, props.loading, props.is_static),
{
    button_classes(&props.classes, props.loading, props.is_static)
}

#[derive(Clone, Debug, PartialEq)]
pub struct ButtonRouterProps {
    /// Classes to be added to component.
    pub classes: Option<Classes>,
    /// Render a loading spinner within this component.
    pub loading: bool,
    /// Make this component static.
    pub is_static: bool,
    /// Disable this component.
    pub disabled: bool,
}

impl ButtonRouterProps {
    /// The classes of a router button: the given classes, `button` after
    /// them if it is not among them, and `is-loading` if asked for.
    pub open spec fn class(self) -> Seq<Seq<char>> {
        let names = with_extra(Seq::empty(), self.classes);
        let names = with_class(names, "button"@);
        with_flag(names, self.loading, "is-loading"@)
    }
}

fn router_button_classes(props: &ButtonRouterProps) -> (class: Classes)
    ensures
        class_names(class) == props.class(),
{
    proof {
        reveal_strlit("button");
        reveal_strlit("is-loading");
    }
    let mut classes = new_classes();
    push_extra(&mut classes, &props.classes);
    if !has_class(&classes, "button") {
        push_class(&mut classes, "button");
    }
    if props.loading {
        push_class(&mut classes, "is-loading");
    }
    classes
}

/// A router button element with Bulma styling.
#[derive(Clone, Copy, Debug, PartialEq, Eq)]
pub struct ButtonRouter {}

impl ButtonRouter {
    /// The component; it has no state.
    pub fn create() -> ButtonRouter {
        ButtonRouter {}
    }

    /// The classes of the button.
    pub fn view(&self, props: &ButtonRouterProps) -> (class: Classes)
        ensures
            class_names(class) == props.class(),
    {
        router_button_classes(props)
    }
}

/// A router anchor button element with Bulma styling.
#[derive(Clone, Copy, Debug, PartialEq, Eq)]
pub struct ButtonAnchorRouter {}

impl ButtonAnchorRouter {
    /// The component; it has no state.
    pub fn create() -> ButtonAnchorRouter {
        ButtonAnchorRouter {}
    }

    /// The classes of the anchor.
    pub fn view(&self, props: &ButtonRouterProps) -> (class: Classes)
        ensures
            class_names(class) == props.class(),
    {
        router_button_classes(props)
    }
}

#[derive(Clone, Debug, PartialEq)]
pub struct ButtonAnchorProps {
    pub classes: Option<Classes>,
    /// The `href` attribute value to use for this component.
    pub href: String,
    /// Render a loading spinner within this component.
    pub loading: bool,
    /// Make this component static.
    pub is_static: bool,
    /// Disable this component.
    pub disabled: bool,
    /// An optional `rel` for when this element is using the `a` tag.
    pub rel: Option<String>,
    /// An optional `target` for when this element is using the `a` tag.
    pub target: Option<String>,
}

/// What the markup of an anchor button is made from.
#[derive(Debug)]
pub struct ButtonAnchorMarkup {
    /// The classes of the anchor.
    pub class: Classes,
    /// The `rel` attribute: the one given, or empty.
    pub rel: String,
    /// The `target` attribute: the one given, or empty.
    pub target: String,
}

/// An anchor element styled as a button.
///
/// [https://bulma.io/documentation/elements/button/](https://bulma.io/documentation/elements/button/)
pub fn button_anchor(props: &ButtonAnchorProps) -> (markup: ButtonAnchorMarkup)
    ensures
        class_names(markup.class) == button_class(props.classes, props.loading, props.is_static),
        markup.rel@ == text_or_empty(props.rel),
        markup.target@ == text_or_empty(props.target),
{
    ButtonAnchorMarkup {
        class: button_classes(&props.classes, props.loading, props.is_static),
        rel: or_empty(&props.rel),
        target: or_empty(&props.target),
    }
}

#[derive(Clone, Debug, PartialEq)]
pub struct ButtonInputSubmitProps {
    pub classes: Option<Classes>,
    /// Render a loading spinner within this component.
    pub loading: bool,
    /// Make this component static.
    pub is_static: bool,
    /// Disable this component.
    pub disabled: bool,
}

/// An input element with `type="submit"` styled as a button.
///
/// [https://bulma.io/documentation/elements/button/](https://bulma.io/documentation/elements/button/)
pub fn button_input_submit(props: &ButtonInputSubmitProps) -> (class: Classes)
    ensures
        class_names(class) == button_class(props.classes, props.loading, props.is_static),
{
    button_classes(&props.classes, props.loading, props.is_static)
}

#[derive(Clone, Debug, PartialEq)]
pub struct ButtonInputResetProps {
    pub classes: Option<Classes>,
    /// Render a loading spinner within this component.
    pub loading: bool,
    /// Make this component static.
    pub is_static: bool,
    /// Disable this component.
    pub disabled: bool,
}

/// An input element with `type="reset"` styled as a button.
///
/// [https://bulma.io/documentation/elements/button/](https://bulma.io/documentation/elements/button/)
pub fn button_input_reset(props: &ButtonInputResetProps) -> (class: Classes)
    ensures
        class_names(class) == button_class(props.classes, props.loading, props.is_static),
{
    button_classes(&props.classes, props.loading, props.is_static)
}

} // verus!
