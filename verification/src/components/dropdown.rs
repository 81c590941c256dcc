//! Dropdown menus.

use crate::classes::{class_from, class_names, push_extra, push_flag, with_extra, with_flag};
use vstd::prelude::*;
use yew::Classes;

verus! {

#[derive(Clone, Debug, PartialEq)]
pub struct DropdownProps {
    pub classes: Option<Classes>,
    /// Make this dropdown triggerable based on hover.
    pub hoverable: bool,
    /// Any additional classes to use for the trigger button.
    pub button_classes: Option<Classes>,
}

impl DropdownProps {
    /// The classes of the dropdown: `dropdown`, the extra classes,
    /// `is-hoverable` if it opens on hover, `is-active` while its menu is shown.
    pub open spec fn class(self, is_menu_active: bool) -> Seq<Seq<char>> {
        let names = with_extra(seq!["dropdown"@], self.classes);
        let names = with_flag(names, self.hoverable, "is-hoverable"@);
        with_flag(names, is_menu_active, "is-active"@)
    }
}

/// Dropdown actions.
#[derive(Clone, Copy, Debug, PartialEq, Eq)]
pub enum DropdownMsg {
    Open,
    Close,
}

/// The message that a click on the trigger of a dropdown sends: `Open`,
/// unless the dropdown opens on hover.
pub open spec fn dropdown_trigger_msg(hoverable: bool) -> Option<DropdownMsg> {
    if hoverable {
        None
    } else {
        Some(DropdownMsg::Open)
    }
}

/// The message that a click on the overlay behind an open menu sends. There
/// is an overlay only while the menu is shown.
pub open spec fn dropdown_overlay_msg(is_menu_active: bool) -> Option<DropdownMsg> {
    if is_menu_active {
        Some(DropdownMsg::Close)
    } else {
        None
    }
}

/// Whether the menu is shown after `msg`, and whether anything changed that
/// asks for a new rendering. A dropdown that opens on hover ignores messages.
pub open spec fn dropdown_after(is_menu_active: bool, hoverable: bool, msg: DropdownMsg) -> (
    bool,
    bool,
) {
    if hoverable {
        (is_menu_active, false)
    } else {
        match msg {
            DropdownMsg::Open => (true, true),
            DropdownMsg::Close => (false, true),
        }
    }
}

/// What the markup of a dropdown is made from.
#[derive(Debug)]
pub struct DropdownMarkup {
    /// The classes of the dropdown element.
    pub class: Classes,
    /// What a click on the trigger button sends.
    pub on_trigger: Option<DropdownMsg>,
    /// What a click on the overlay sends; without it there is no overlay.
    pub on_overlay: Option<DropdownMsg>,
}

/// An interactive dropdown menu for discoverable content.
///
/// [https://bulma.io/documentation/components/dropdown/](https://bulma.io/documentation/components/dropdown/)
#[derive(Debug)]
pub struct Dropdown {
    is_menu_active: bool,
}

impl Dropdown {
    /// Whether the menu is shown.
    pub closed spec fn menu_active(&self) -> bool {
        self.is_menu_active
    }

    /// A dropdown whose menu is hidden.
    pub fn create() -> (dropdown: Dropdown)
        ensures
            !dropdown.menu_active(),
    {
        Dropdown { is_menu_active: false }
    }

    /// Whether the menu is shown.
    #[verifier::when_used_as_spec(menu_active)]
    pub fn is_menu_active(&self) -> (active: bool)
        ensures
            active == self.menu_active(),
    {
        self.is_menu_active
    }

    /// Handles one message, and says whether the dropdown is to be rendered anew.
    pub fn update(&mut self, props: &DropdownProps, msg: DropdownMsg) -> (render: bool)
        ensures
            (final(self).menu_active(), render) == dropdown_after(
                old(self).menu_active(),
                props.hoverable,
                msg,
            ),
    {
        if props.hoverable {
            return false;
        }
        match msg {
            DropdownMsg::Open => self.is_menu_active = true,
            DropdownMsg::Close => self.is_menu_active = false,
        }
        true
    }

    /// The markup of the dropdown in its present state.
    pub fn view(&self, props: &DropdownProps) -> (markup: DropdownMarkup)
        ensures
            class_names(markup.class) == props.class(self.menu_active()),
            markup.on_trigger == dropdown_trigger_msg(props.hoverable),
            markup.on_overlay == dropdown_overlay_msg(self.menu_active()),
    {
        proof {
            reveal_strlit("dropdown");
            reveal_strlit("is-hoverable");
            reveal_strlit("is-active");
        }
        let mut class = class_from("dropdown");
        push_extra(&mut class, &props.classes);
        let on_trigger = if props.hoverable {
            push_flag(&mut class, true, "is-hoverable");
            None
        } else {
            Some(DropdownMsg::Open)
        };
        let on_overlay = if self.is_menu_active {
            push_flag(&mut class, true, "is-active");
            Some(DropdownMsg::Close)
        } else {
            None
        };
        DropdownMarkup { class, on_trigger, on_overlay }
    }
}

} // verus!
