//! Titles and subtitles.

use crate::classes::{
    class_from, class_names, push_extra, push_flag, push_modifier, with_extra, with_flag,
    with_modifier, Modifier,
};
use vstd::prelude::*;
use yew::Classes;

verus! {

#[derive(Clone, Debug, PartialEq)]
pub struct TitleProps {
    pub classes: Option<Classes>,
    /// The HTML tag to use for this component.
    pub tag: String,
    /// Maintain the normal spacing between titles and subtitles.
    pub is_spaced: bool,
    /// The size of this component.
    pub size: Option<HeaderSize>,
}

impl TitleProps {
    /// The classes of the title: `title`, the extra classes, the class of the
    /// size, and `is-spaced` if asked for.
    pub open spec fn class(self) -> Seq<Seq<char>> {
        let names = with_extra(seq!["title"@], self.classes);
        let names = with_modifier(names, self.size);
        with_flag(names, self.is_spaced, "is-spaced"@)
    }
}

/// A simple heading to add depth to your page.
///
/// [https://bulma.io/documentation/elements/title/](https://bulma.io/documentation/elements/title/)
pub fn title(props: &TitleProps) -> (class: Classes)
    ensures
        class_names(class) == props.class(),
{
    proof {
        reveal_strlit("title");
        reveal_strlit("is-spaced");
    }
    let mut class = class_from("title");
    push_extra(&mut class, &props.classes);
    push_modifier(&mut class, &props.size);
    push_flag(&mut class, props.is_spaced, "is-spaced");
    class
}

#[derive(Clone, Debug, PartialEq)]
pub struct SubtitleProps {
    pub classes: Option<Classes>,
    /// The HTML tag to use for this component.
    pub tag: String,
    /// The size of this component.
    pub size: Option<HeaderSize>,
}

impl SubtitleProps {
    /// The classes of the subtitle: `subtitle`, the extra classes, then the
    /// class of the size.
    pub open spec fn class(self) -> Seq<Seq<char>> {
        let names = with_extra(seq!["subtitle"@], self.classes);
        with_modifier(names, self.size)
    }
}

/// A simple heading to add depth to your page.
///
/// [https://bulma.io/documentation/elements/title/](https://bulma.io/documentation/elements/title/)
pub fn subtitle(props: &SubtitleProps) -> (class: Classes)
    ensures
        class_names(class) == props.class(),
{
    proof {
        reveal_strlit("subtitle");
    }
    let mut class = class_from("subtitle");
    push_extra(&mut class, &props.classes);
    push_modifier(&mut class, &props.size);
    class
}

/// The six sizes available for titles & subtitles.
///
/// https://bulma.io/documentation/elements/title/#sizes
#[derive(Clone, Debug, PartialEq)]
pub enum HeaderSize {
    Is1,
    Is2,
    Is3,
    Is4,
    Is5,
    Is6,
}

impl Modifier for HeaderSize {
    open spec fn class_name(&self) -> Seq<char> {
        match self {
            HeaderSize::Is1 => "is-1"@,
            HeaderSize::Is2 => "is-2"@,
            HeaderSize::Is3 => "is-3"@,
            HeaderSize::Is4 => "is-4"@,
            HeaderSize::Is5 => "is-5"@,
            HeaderSize::Is6 => "is-6"@,
        }
    }

    fn to_string(&self) -> (text: String) {
        proof {
            reveal_strlit("is-1");
            reveal_strlit("is-2");
            reveal_strlit("is-3");
            reveal_strlit("is-4");
            reveal_strlit("is-5");
            reveal_strlit("is-6");
        }
        match self {
            HeaderSize::Is1 => "is-1".to_owned(),
            HeaderSize::Is2 => "is-2".to_owned(),
            HeaderSize::Is3 => "is-3".to_owned(),
            HeaderSize::Is4 => "is-4".to_owned(),
            HeaderSize::Is5 => "is-5".to_owned(),
            HeaderSize::Is6 => "is-6".to_owned(),
        }
    }
}

} // verus!
