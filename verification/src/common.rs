//! Modifiers shared by many components.

use crate::classes::Modifier;
use vstd::prelude::*;

verus! {

/// Common alignment classes.
#[derive(Clone, Debug, PartialEq)]
pub enum Alignment {
    Left,
    Centered,
    Right,
}

impl Modifier for Alignment {
    open spec fn class_name(&self) -> Seq<char> {
        match self {
            Alignment::Left => "is-left"@,
            Alignment::Centered => "is-centered"@,
            Alignment::Right => "is-right"@,
        }
    }

    fn to_string(&self) -> (text: String) {
        proof {
            reveal_strlit("is-left");
            reveal_strlit("is-centered");
            reveal_strlit("is-right");
        }
        match self {
            Alignment::Left => "is-left".to_owned(),
            Alignment::Centered => "is-centered".to_owned(),
            Alignment::Right => "is-right".to_owned(),
        }
    }
}

/// Common size classes.
#[derive(Clone, Debug, PartialEq)]
pub enum Size {
    Small,
    Normal,
    Medium,
    Large,
}

impl Modifier for Size {
    open spec fn class_name(&self) -> Seq<char> {
        match self {
            Size::Small => "is-small"@,
            Size::Normal => "is-normal"@,
            Size::Medium => "is-medium"@,
            Size::Large => "is-large"@,
        }
    }

    fn to_string(&self) -> (text: String) {
        proof {
            reveal_strlit("is-small");
            reveal_strlit("is-normal");
            reveal_strlit("is-medium");
            reveal_strlit("is-large");
        }
        match self {
            Size::Small => "is-small".to_owned(),
            Size::Normal => "is-normal".to_owned(),
            Size::Medium => "is-medium".to_owned(),
            Size::Large => "is-large".to_owned(),
        }
    }
}

impl Size {
    /// The value of this size as an attribute of an element: its class.
    pub fn into_prop_value(self) -> (value: String)
        ensures
            value@ == self.class_name(),
    {
        self.to_string()
    }
}

/// The text of an optional attribute: the empty text where there is none.
pub open spec fn text_or_empty(value: Option<String>) -> Seq<char> {
    match value {
        Some(text) => text@,
        None => Seq::empty(),
    }
}

/// The text of an optional attribute: the empty text where there is none.
pub fn or_empty(value: &Option<String>) -> (text: String)
    ensures
        text@ == text_or_empty(*value),
{
    match value {
        Some(text) => text.clone(),
        None => String::new(),
    }
}

} // verus!
