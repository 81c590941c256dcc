//! Images.

use crate::classes::{
    class_from, class_names, push_extra, push_modifier, with_extra, with_modifier, Modifier,
};
use vstd::prelude::*;
use yew::Classes;

verus! {

#[derive(Clone, Debug, PartialEq)]
pub struct ImageProps {
    pub classes: Option<Classes>,
    /// The size of this component.
    pub size: Option<ImageSize>,
}

impl ImageProps {
    /// The classes of the figure: `image`, the extra classes, then the class of
    /// the size.
    pub open spec fn class(self) -> Seq<Seq<char>> {
        let names = with_extra(seq!["image"@], self.classes);
        with_modifier(names, self.size)
    }
}

/// A container for responsive images.
///
/// [https://bulma.io/documentation/elements/image/](https://bulma.io/documentation/elements/image/)
pub fn image(props: &ImageProps) -> (class: Classes)
    ensures
        class_names(class) == props.class(),
{
    proof {
        reveal_strlit("image");
    }
    let mut class = class_from("image");
    push_extra(&mut class, &props.classes);
    push_modifier(&mut class, &props.size);
    class
}

/// Available placeholder sizes for figures.
///
/// https://bulma.io/documentation/elements/image/
#[derive(Clone, Debug, PartialEq)]
pub enum ImageSize {
    Is16x16,
    Is24x24,
    Is32x32,
    Is48x48,
    Is64x64,
    Is96x96,
    Is128x128,
    IsSquare,
    Is1by1,
    Is5by4,
    Is4by3,
    Is3by2,
    Is5by3,
    Is16by9,
    Is2by1,
    Is3by1,
    Is4by5,
    Is3by4,
    Is2by3,
    Is3by5,
    Is9by16,
    Is1by2,
    Is1by3,
}

impl Modifier for ImageSize {
    open spec fn class_name(&self) -> Seq<char> {
        match self {
            ImageSize::Is16x16 => "is-16x16"@,
            ImageSize::Is24x24 => "is-24x24"@,
            ImageSize::Is32x32 => "is-32x32"@,
            ImageSize::Is48x48 => "is-48x48"@,
            ImageSize::Is64x64 => "is-64x64"@,
            ImageSize::Is96x96 => "is-96x96"@,
            ImageSize::Is128x128 => "is-128x128"@,
            ImageSize::IsSquare => "is-Square"@,
            ImageSize::Is1by1 => "is-1by1"@,
            ImageSize::Is5by4 => "is-5by4"@,
            ImageSize::Is4by3 => "is-4by3"@,
            ImageSize::Is3by2 => "is-3by2"@,
            ImageSize::Is5by3 => "is-5by3"@,
            ImageSize::Is16by9 => "is-16by9"@,
            ImageSize::Is2by1 => "is-2by1"@,
            ImageSize::Is3by1 => "is-3by1"@,
            ImageSize::Is4by5 => "is-4by5"@,
            ImageSize::Is3by4 => "is-3by4"@,
            ImageSize::Is2by3 => "is-2by3"@,
            ImageSize::Is3by5 => "is-3by5"@,
            ImageSize::Is9by16 => "is-9by16"@,
            ImageSize::Is1by2 => "is-1by2"@,
            ImageSize::Is1by3 => "is-1by3"@,
        }
    }

    fn to_string(&self) -> (text: String) {
        proof {
            reveal_strlit("is-16x16");
            reveal_strlit("is-24x24");
            reveal_strlit("is-32x32");
            reveal_strlit("is-48x48");
            reveal_strlit("is-64x64");
            reveal_strlit("is-96x96");
            reveal_strlit("is-128x128");
            reveal_strlit("is-Square");
            reveal_strlit("is-1by1");
            reveal_strlit("is-5by4");
            reveal_strlit("is-4by3");
            reveal_strlit("is-3by2");
            reveal_strlit("is-5by3");
            reveal_strlit("is-16by9");
            reveal_strlit("is-2by1");
            reveal_strlit("is-3by1");
            reveal_strlit("is-4by5");
            reveal_strlit("is-3by4");
            reveal_strlit("is-2by3");
            reveal_strlit("is-3by5");
            reveal_strlit("is-9by16");
            reveal_strlit("is-1by2");
            reveal_strlit("is-1by3");
        }
        match self {
            ImageSize::Is16x16 => "is-16x16".to_owned(),
            ImageSize::Is24x24 => "is-24x24".to_owned(),
            ImageSize::Is32x32 => "is-32x32".to_owned(),
            ImageSize::Is48x48 => "is-48x48".to_owned(),
            ImageSize::Is64x64 => "is-64x64".to_owned(),
            ImageSize::Is96x96 => "is-96x96".to_owned(),
            ImageSize::Is128x128 => "is-128x128".to_owned(),
            ImageSize::IsSquare => "is-Square".to_owned(),
            ImageSize::Is1by1 => "is-1by1".to_owned(),
            ImageSize::Is5by4 => "is-5by4".to_owned(),
            ImageSize::Is4by3 => "is-4by3".to_owned(),
            ImageSize::Is3by2 => "is-3by2".to_owned(),
            ImageSize::Is5by3 => "is-5by3".to_owned(),
            ImageSize::Is16by9 => "is-16by9".to_owned(),
            ImageSize::Is2by1 => "is-2by1".to_owned(),
            ImageSize::Is3by1 => "is-3by1".to_owned(),
            ImageSize::Is4by5 => "is-4by5".to_owned(),
            ImageSize::Is3by4 => "is-3by4".to_owned(),
            ImageSize::Is2by3 => "is-2by3".to_owned(),
            ImageSize::Is3by5 => "is-3by5".to_owned(),
            ImageSize::Is9by16 => "is-9by16".to_owned(),
            ImageSize::Is1by2 => "is-1by2".to_owned(),
            ImageSize::Is1by3 => "is-1by3".to_owned(),
        }
    }
}

} // verus!
