//! Cards.

use crate::classes::{class_from, class_names, push_extra, with_extra};
use vstd::prelude::*;
use yew::Classes;

verus! {

#[derive(Clone, Debug, PartialEq)]
pub struct CardProps {
    pub classes: Option<Classes>,
}

/// An all-around flexible and composable component; this is the card container.
///
/// [https://bulma.io/documentation/components/card/](https://bulma.io/documentation/components/card/)
pub fn card(props: &CardProps) -> (class: Classes)
    ensures
        class_names(class) == with_extra(seq!["card"@], props.classes),
{
    proof {
        reveal_strlit("card");
    }
    let mut class = class_from("card");
    push_extra(&mut class, &props.classes);
    class
}

#[derive(Clone, Debug, PartialEq)]
pub struct CardHeaderProps {
    pub classes: Option<Classes>,
}

/// A container for card header content; rendered as a horizontal bar with a shadow.
///
/// [https://bulma.io/documentation/components/card/](https://bulma.io/documentation/components/card/)
pub fn card_header(props: &CardHeaderProps) -> (class: Classes)
    ensures
        class_names(class) == with_extra(seq!["card-header"@], props.classes),
{
    proof {
        reveal_strlit("card-header");
    }
    let mut class = class_from("card-header");
    push_extra(&mut class, &props.classes);
    class
}

#[derive(Clone, Debug, PartialEq)]
pub struct CardImageProps {
    pub classes: Option<Classes>,
}

/// A fullwidth container for a responsive image.
///
/// [https://bulma.io/documentation/components/card/](https://bulma.io/documentation/components/card/)
pub fn card_image(props: &CardImageProps) -> (class: Classes)
    ensures
        class_names(class) == with_extra(seq!["card-image"@], props.classes),
{
    proof {
        reveal_strlit("card-image");
    }
    let mut class = class_from("card-image");
    push_extra(&mut class, &props.classes);
    class
}

#[derive(Clone, Debug, PartialEq)]
pub struct CardContentProps {
    pub classes: Option<Classes>,
}

/// A container for any other content as the body of the card.
///
/// [https://bulma.io/documentation/components/card/](https://bulma.io/documentation/components/card/)
pub fn card_content(props: &CardContentProps) -> (class: Classes)
    ensures
        class_names(class) == with_extra(seq!["card-content"@], props.classes),
{
    proof {
        reveal_strlit("card-content");
    }
    let mut class = class_from("card-content");
    push_extra(&mut class, &props.classes);
    class
}

#[derive(Clone, Debug, PartialEq)]
pub struct CardFooterProps {
    pub classes: Option<Classes>,
}

/// A container for card footer content; rendered as a horizontal list of controls.
///
/// [https://bulma.io/documentation/components/card/](https://bulma.io/documentation/components/card/)
pub fn card_footer(props: &CardFooterProps) -> (class: Classes)
    ensures
        class_names(class) == with_extra(seq!["card-footer"@], props.classes),
{
    proof {
        reveal_strlit("card-footer");
    }
    let mut class = class_from("card-footer");
    push_extra(&mut class, &props.classes);
    class
}

} // verus!
