//! Tiles.

use crate::classes::{
    class_from, class_names, push_extra, push_flag, push_modifier, with_extra, with_flag,
    with_modifier, Modifier,
};
use vstd::prelude::*;
use yew::Classes;

verus! {

#[derive(Clone, Debug, PartialEq)]
pub struct TileProps {
    pub classes: Option<Classes>,
    /// The HTML tag to use for this component.
    pub tag: String,
    /// The context modifier to use for this tile element, else none.
    ///
    /// https://bulma.io/documentation/layout/tiles/#modifiers
    pub ctx: Option<TileCtx>,
    /// Stack tiles vertically.
    ///
    /// https://bulma.io/documentation/layout/tiles/#modifiers
    pub vertical: bool,
    /// The size to assign to this tile element.
    ///
    /// https://bulma.io/documentation/layout/tiles/#modifiers
    pub size: Option<TileSize>,
}

impl TileProps {
    /// The classes of the tile: `tile`, the extra classes, the class of the
    /// context, `is-vertical` if asked for, then the class of the size.
    pub open spec fn class(self) -> Seq<Seq<char>> {
        let names = with_extra(seq!["tile"@], self.classes);
        let names = with_modifier(names, self.ctx);
        let names = with_flag(names, self.vertical, "is-vertical"@);
        with_modifier(names, self.size)
    }
}

/// A single tile element to build 2-dimensional whatever-you-like grids.
///
/// [https://bulma.io/documentation/layout/tiles/](https://bulma.io/documentation/layout/tiles/)
pub fn tile(props: &TileProps) -> (class: Classes)
    ensures
        class_names(class) == props.class(),
{
    proof {
        reveal_strlit("tile");
        reveal_strlit("is-vertical");
    }
    let mut class = class_from("tile");
    push_extra(&mut class, &props.classes);
    push_modifier(&mut class, &props.ctx);
    push_flag(&mut class, props.vertical, "is-vertical");
    push_modifier(&mut class, &props.size);
    class
}

/// Tile context modifiers.
///
/// https://bulma.io/documentation/layout/tiles/#modifiers
#[derive(Clone, Debug, PartialEq)]
pub enum TileCtx {
    Ancestor,
    Parent,
    Child,
}

impl Modifier for TileCtx {
    open spec fn class_name(&self) -> Seq<char> {
        match self {
            TileCtx::Ancestor => "is-ancestor"@,
            TileCtx::Parent => "is-parent"@,
            TileCtx::Child => "is-child"@,
        }
    }

    fn to_string(&self) -> (text: String) {
        proof {
            reveal_strlit("is-ancestor");
            reveal_strlit("is-parent");
            reveal_strlit("is-child");
        }
        match self {
            TileCtx::Ancestor => "is-ancestor".to_owned(),
            TileCtx::Parent => "is-parent".to_owned(),
            TileCtx::Child => "is-child".to_owned(),
        }
    }
}

/// Tile size modifiers.
///
/// https://bulma.io/documentation/layout/tiles/#modifiers
#[derive(Clone, Debug, PartialEq)]
pub enum TileSize {
    One,
    Two,
    Three,
    Four,
    Five,
    Six,
    Seven,
    Eight,
    Nine,
    Ten,
    Eleven,
    Twelve,
}

impl Modifier for TileSize {
    open spec fn class_name(&self) -> Seq<char> {
        match self {
            TileSize::One => "is-1"@,
            TileSize::Two => "is-2"@,
            TileSize::Three => "is-3"@,
            TileSize::Four => "is-4"@,
            TileSize::Five => "is-5"@,
            TileSize::Six => "is-6"@,
            TileSize::Seven => "is-7"@,
            TileSize::Eight => "is-8"@,
            TileSize::Nine => "is-9"@,
            TileSize::Ten => "is-10"@,
            TileSize::Eleven => "is-11"@,
            TileSize::Twelve => "is-12"@,
        }
    }

    fn to_string(&self) -> (text: String) {
        proof {
            reveal_strlit("is-1");
            reveal_strlit("is-2");
            reveal_strlit("is-3");
            reveal_strlit("is-4");
            reveal_strlit("is-5");
            reveal_strlit("is-6");
            reveal_strlit("is-7");
            reveal_strlit("is-8");
            reveal_strlit("is-9");
            reveal_strlit("is-10");
            reveal_strlit("is-11");
            reveal_strlit("is-12");
        }
        match self {
            TileSize::One => "is-1".to_owned(),
            TileSize::Two => "is-2".to_owned(),
            TileSize::Three => "is-3".to_owned(),
            TileSize::Four => "is-4".to_owned(),
            TileSize::Five => "is-5".to_owned(),
            TileSize::Six => "is-6".to_owned(),
            TileSize::Seven => "is-7".to_owned(),
            TileSize::Eight => "is-8".to_owned(),
            TileSize::Nine => "is-9".to_owned(),
            TileSize::Ten => "is-10".to_owned(),
            TileSize::Eleven => "is-11".to_owned(),
            TileSize::Twelve => "is-12".to_owned(),
        }
    }
}

} // verus!
