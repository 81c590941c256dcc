//! Hero banners.

use crate::classes::{
    class_from, class_names, push_extra, push_flag, push_modifier, with_extra, with_flag,
    with_modifier, Modifier,
};
use vstd::prelude::*;
use yew::Classes;

verus! {

#[derive(Clone, Debug, PartialEq)]
pub struct HeroProps {
    /// Extra classes for the hero container.
    pub classes: Option<Classes>,
    /// Optional classes to add to the `hero-head` container.
    pub head_classes: Option<Classes>,
    /// Optional classes to add to the `hero-body` container.
    pub body_classes: Option<Classes>,
    /// Optional classes to add to the `hero-foot` container.
    pub foot_classes: Option<Classes>,
    /// If you are using a [fixed navbar](https://bulma.io/documentation/components/navbar/#fixed-navbar),
    /// you can use the `fixed_nav=true` modifier on the hero for it to occupy the viewport height minus
    /// the navbar height.
    ///
    /// https://bulma.io/documentation/layout/hero/#fullheight-with-navbar
    pub fixed_nav: bool,
    /// Generate a subtle gradient for the hero.
    pub bold: bool,
    /// The size for this hero.
    pub size: Option<HeroSize>,
}

impl HeroProps {
    /// The classes of the hero: `hero`, the extra classes,
    /// `is-fullheight-with-navbar` and `is-bold` as asked for, then the class
    /// of the size.
    pub open spec fn class(self) -> Seq<Seq<char>> {
        let names = with_extra(seq!["hero"@], self.classes);
        let names = with_flag(names, self.fixed_nav, "is-fullheight-with-navbar"@);
        let names = with_flag(names, self.bold, "is-bold"@);
        with_modifier(names, self.size)
    }

    /// The classes of the head: `hero-head` and its extra classes.
    pub open spec fn head_class(self) -> Seq<Seq<char>> {
        with_extra(seq!["hero-head"@], self.head_classes)
    }

    /// The classes of the body: `hero-body` and its extra classes.
    pub open spec fn body_class(self) -> Seq<Seq<char>> {
        with_extra(seq!["hero-body"@], self.body_classes)
    }

    /// The classes of the foot: `hero-foot` and its extra classes.
    pub open spec fn foot_class(self) -> Seq<Seq<char>> {
        with_extra(seq!["hero-foot"@], self.foot_classes)
    }
}

/// What the markup of a hero is made from.
#[derive(Debug)]
pub struct HeroMarkup {
    /// The classes of the hero.
    pub class: Classes,
    /// The classes of the head, for a hero that has one.
    pub head_class: Classes,
    /// The classes of the body.
    pub body_class: Classes,
    /// The classes of the foot, for a hero that has one.
    pub foot_class: Classes,
}

/// An imposing hero banner to showcase something.
///
/// [https://bulma.io/documentation/layout/hero/](https://bulma.io/documentation/layout/hero/)
pub fn hero(props: &HeroProps) -> (markup: HeroMarkup)
    ensures
        class_names(markup.class) == props.class(),
        class_names(markup.head_class) == props.head_class(),
        class_names(markup.body_class) == props.body_class(),
        class_names(markup.foot_class) == props.foot_class(),
{
    proof {
        reveal_strlit("hero");
        reveal_strlit("is-fullheight-with-navbar");
        reveal_strlit("is-bold");
        reveal_strlit("hero-head");
        reveal_strlit("hero-body");
        reveal_strlit("hero-foot");
    }
    let mut class = class_from("hero");
    push_extra(&mut class, &props.classes);
    push_flag(&mut class, props.fixed_nav, "is-fullheight-with-navbar");
    push_flag(&mut class, props.bold, "is-bold");
    push_modifier(&mut class, &props.size);

    // Build the header section.
    let mut head_class = class_from("hero-head");
    push_extra(&mut head_class, &props.head_classes);

    // Build the footer section.
    let mut foot_class = class_from("hero-foot");
    push_extra(&mut foot_class, &props.foot_classes);

    let mut body_class = class_from("hero-body");
    push_extra(&mut body_class, &props.body_classes);
    HeroMarkup { class, head_class, body_class, foot_class }
}

/// The 4 sizes available for heros.
///
/// [https://bulma.io/documentation/layout/hero/#sizes](https://bulma.io/documentation/layout/hero/#sizes)
#[derive(Clone, Debug, PartialEq)]
pub enum HeroSize {
    Medium,
    Large,
    Fullheight,
    FullheightWithNavbar,
}

impl Modifier for HeroSize {
    open spec fn class_name(&self) -> Seq<char> {
        match self {
            HeroSize::Medium => "is-medium"@,
            HeroSize::Large => "is-large"@,
            HeroSize::Fullheight => "is-fullheight"@,
            HeroSize::FullheightWithNavbar => "is-fullheight-with-navbar"@,
        }
    }

    fn to_string(&self) -> (text: String) {
        proof {
            reveal_strlit("is-medium");
            reveal_strlit("is-large");
            reveal_strlit("is-fullheight");
            reveal_strlit("is-fullheight-with-navbar");
        }
        match self {
            HeroSize::Medium => "is-medium".to_owned(),
            HeroSize::Large => "is-large".to_owned(),
            HeroSize::Fullheight => "is-fullheight".to_owned(),
            HeroSize::FullheightWithNavbar => "is-fullheight-with-navbar".to_owned(),
        }
    }
}

} // verus!
