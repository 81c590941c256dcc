//! Navigation bars, their items and their dropdown menus.

use crate::classes::{
    class_from, class_names, is_class_name, push_class, push_extra, push_flag, push_modifier,
    with_class, with_extra, with_flag, with_modifier, Modifier,
};
use crate::common::{or_empty, text_or_empty};
use crate::components::dropdown::{
    dropdown_after, dropdown_overlay_msg, dropdown_trigger_msg, DropdownMsg,
};
use vstd::prelude::*;
use yew::Classes;

verus! {

/// The message type used by the `Navbar` component.
#[derive(Clone, Copy, Debug, PartialEq, Eq)]
pub enum NavbarMsg {
    ToggleMenu,
}

#[derive(Clone, Debug, PartialEq)]
pub struct NavbarProps {
    pub classes: Option<Classes>,
    /// Make the navbar fixed to the top or bottom of the UI.
    pub fixed: Option<NavbarFixed>,
    /// Seamlessly integrate the navbar in any visual context.
    ///
    /// [https://bulma.io/documentation/components/navbar/#transparent-navbar](https://bulma.io/documentation/components/navbar/#transparent-navbar)
    pub transparent: bool,
    /// Sets **top** and **bottom** paddings with **1rem**, **left** and **right** paddings with **2rem**.
    ///
    /// [https://bulma.io/documentation/components/navbar/#navbar-helper-classes](https://bulma.io/documentation/components/navbar/#navbar-helper-classes)
    pub spaced: bool,
    /// If true, the contents of the navbar will be wrapped in a container.
    pub padded: bool,
    /// A bool controlling if the navbar should have a navbar burger for smaller viewports.
    pub navburger: bool,
    /// Extra classes for the navbar burger.
    pub navburger_classes: Option<Classes>,
}

impl NavbarProps {
    /// The classes of the navbar: `navbar`, the extra classes, the class of
    /// the fixed position if there is one.
    pub open spec fn class(self) -> Seq<Seq<char>> {
        with_modifier(with_extra(seq!["navbar"@], self.classes), self.fixed)
    }

    /// The classes of the burger: `navbar-burger`, its extra classes,
    /// `is-active` while the menu is open.
    pub open spec fn burger_class(self, is_menu_open: bool) -> Seq<Seq<char>> {
        with_flag(
            with_extra(seq!["navbar-burger"@], self.navburger_classes),
            is_menu_open,
            "is-active"@,
        )
    }
}

/// The classes of the menu of a navbar: `navbar-menu`, and `is-active` while
/// the menu is open.
pub open spec fn navbar_menu_class(is_menu_open: bool) -> Seq<Seq<char>> {
    with_flag(seq!["navbar-menu"@], is_menu_open, "is-active"@)
}

/// The value of `aria-expanded` on the burger.
pub open spec fn aria_expanded(is_menu_open: bool) -> Seq<char> {
    if is_menu_open {
        "true"@
    } else {
        "false"@
    }
}

/// What the markup of a navbar is made from.
#[derive(Debug)]
pub struct NavbarMarkup {
    /// The classes of the `nav` element.
    pub class: Classes,
    /// The classes of the menu.
    pub menu_class: Classes,
    /// The classes of the burger.
    pub burger_class: Classes,
    /// The value of `aria-expanded` on the burger.
    pub aria_expanded: String,
    /// What a click on the burger sends.
    pub on_burger: NavbarMsg,
}

/// A responsive horizontal navbar that can support images, links, buttons, and dropdowns.
///
/// [https://bulma.io/documentation/components/navbar/](https://bulma.io/documentation/components/navbar/)
#[derive(Debug)]
pub struct Navbar {
    is_menu_open: bool,
}

impl Navbar {
    /// Whether the menu is open.
    pub closed spec fn menu_open(&self) -> bool {
        self.is_menu_open
    }

    /// A navbar whose menu is closed.
    pub fn create() -> (navbar: Navbar)
        ensures
            !navbar.menu_open(),
    {
        Navbar { is_menu_open: false }
    }

    /// Whether the menu is open.
    #[verifier::when_used_as_spec(menu_open)]
    pub fn is_menu_open(&self) -> (open: bool)
        ensures
            open == self.menu_open(),
    {
        self.is_menu_open
    }

    /// Handles one message: a click on the burger opens a closed menu and
    /// closes an open one. The navbar is always to be rendered anew.
    pub fn update(&mut self, msg: NavbarMsg) -> (render: bool)
        ensures
            render,
            final(self).menu_open() == !old(self).menu_open(),
    {
        match msg {
            NavbarMsg::ToggleMenu => {
                self.is_menu_open = !self.is_menu_open;
            },
        }
        true
    }

    /// The markup of the navbar in its present state.
    pub fn view(&self, props: &NavbarProps) -> (markup: NavbarMarkup)
        ensures
            class_names(markup.class) == props.class(),
            class_names(markup.menu_class) == navbar_menu_class(self.menu_open()),
            class_names(markup.burger_class) == props.burger_class(self.menu_open()),
            markup.aria_expanded@ == aria_expanded(self.menu_open()),
            markup.on_burger == NavbarMsg::ToggleMenu,
    {
        proof {
            reveal_strlit("navbar");
            reveal_strlit("navbar-menu");
            reveal_strlit("navbar-burger");
            reveal_strlit("is-active");
        }
        // navbar classes
        let mut class = class_from("navbar");
        push_extra(&mut class, &props.classes);
        push_modifier(&mut class, &props.fixed);

        // navbar-menu classes
        let mut menu_class = class_from("navbar-menu");
        let mut burger_class = class_from("navbar-burger");
        push_extra(&mut burger_class, &props.navburger_classes);
        if self.is_menu_open {
            push_class(&mut menu_class, "is-active");
            push_class(&mut burger_class, "is-active");
        }
        let aria_expanded = if self.is_menu_open {
            "true".to_owned()
        } else {
            "false".to_owned()
        };
        NavbarMarkup { class, menu_class, burger_class, aria_expanded, on_burger: NavbarMsg::ToggleMenu }
    }
}

/// The 2 possible fixed positions available for a navbar.
///
/// [https://bulma.io/documentation/components/navbar/#fixed-navbar](https://bulma.io/documentation/components/navbar/#fixed-navbar)
///
/// NOTE WELL: in order to work properly, the root `html` or `body` element must be configured with
/// the corresponding `has-navbar-fixed-top` or `has-navbar-fixed-bottom` class.
#[derive(Clone, Debug, PartialEq)]
pub enum NavbarFixed {
    Top,
    Bottom,
}

impl Modifier for NavbarFixed {
    open spec fn class_name(&self) -> Seq<char> {
        match self {
            NavbarFixed::Top => "is-fixed-top"@,
            NavbarFixed::Bottom => "is-fixed-bottom"@,
        }
    }

    fn to_string(&self) -> (text: String) {
        proof {
            reveal_strlit("is-fixed-top");
            reveal_strlit("is-fixed-bottom");
        }
        match self {
            NavbarFixed::Top => "is-fixed-top".to_owned(),
            NavbarFixed::Bottom => "is-fixed-bottom".to_owned(),
        }
    }
}

/// The two HTML tags allowed for a navbar-item.
///
/// [https://bulma.io/documentation/components/navbar/#navbar-item](https://bulma.io/documentation/components/navbar/#navbar-item)
#[derive(Clone, Debug, PartialEq)]
pub enum NavbarItemTag {
    A,
    Div,
}

impl NavbarItemTag {
    /// The name of the HTML tag.
    pub open spec fn tag_name(self) -> Seq<char> {
        match self {
            NavbarItemTag::A => "a"@,
            NavbarItemTag::Div => "div"@,
        }
    }

    /// The name of the HTML tag, as text.
    pub fn to_string(&self) -> (text: String)
        ensures
            text@ == self.tag_name(),
    {
        match self {
            NavbarItemTag::A => "a".to_owned(),
            NavbarItemTag::Div => "div".to_owned(),
        }
    }
}

#[derive(Clone, Debug, PartialEq)]
pub struct NavbarItemProps {
    pub classes: Option<Classes>,
    /// The HTML tag to use for this component.
    pub tag: NavbarItemTag,
    /// Add the `has-dropdown` class to this element, indicating that it is the parent
    /// of a dropdown menu.
    pub has_dropdown: bool,
    /// Turn this into a full-width element.
    pub expanded: bool,
    /// Add a bottom border on hover, and show the bottom border using `is_active=true`.
    pub tab: bool,
    /// Show the bottom border when `is_tab=true`.
    pub active: bool,
    /// An optional `href` for when this element is using the `a` tag.
    pub href: Option<String>,
    /// An optional `rel` for when this element is using the `a` tag.
    pub rel: Option<String>,
    /// An optional `target` for when this element is using the `a` tag.
    pub target: Option<String>,
}

impl NavbarItemProps {
    /// The classes of the item: `navbar-item`, the extra classes, then one
    /// class for each of the flags that is set.
    pub open spec fn class(self) -> Seq<Seq<char>> {
        let names = with_extra(seq!["navbar-item"@], self.classes);
        let names = with_flag(names, self.has_dropdown, "has-dropdown"@);
        let names = with_flag(names, self.expanded, "is-expanded"@);
        let names = with_flag(names, self.tab, "is-tab"@);
        with_flag(names, self.active, "is-active"@)
    }

    /// The attributes of the link: those given, the others empty. Only an
    /// item with the `a` tag is a link.
    pub open spec fn link(self) -> Option<(Seq<char>, Seq<char>, Seq<char>)> {
        match self.tag {
            NavbarItemTag::A => Some(
                (text_or_empty(self.href), text_or_empty(self.rel), text_or_empty(self.target)),
            ),
            NavbarItemTag::Div => None,
        }
    }
}

/// The attributes of an anchor.
#[derive(Clone, Debug, PartialEq)]
pub struct LinkAttributes {
    pub href: String,
    pub rel: String,
    pub target: String,
}

impl View for LinkAttributes {
    type V = (Seq<char>, Seq<char>, Seq<char>);

    open spec fn view(&self) -> (Seq<char>, Seq<char>, Seq<char>) {
        (self.href@, self.rel@, self.target@)
    }
}

/// The attributes of an optional anchor, as plain texts.
pub open spec fn link_view(link: Option<LinkAttributes>) -> Option<
    (Seq<char>, Seq<char>, Seq<char>),
> {
    match link {
        Some(link) => Some(link@),
        None => None,
    }
}

/// What the markup of a navbar item is made from.
#[derive(Debug)]
pub struct NavbarItemMarkup {
    /// The classes of the item.
    pub class: Classes,
    /// The attributes of the anchor, for an item with the `a` tag.
    pub link: Option<LinkAttributes>,
}

/// A single element of the navbar.
///
/// [https://bulma.io/documentation/components/navbar/](https://bulma.io/documentation/components/navbar/)
pub fn navbar_item(props: &NavbarItemProps) -> (markup: NavbarItemMarkup)
    ensures
        class_names(markup.class) == props.class(),
        link_view(markup.link) == props.link(),
{
    proof {
        reveal_strlit("navbar-item");
        reveal_strlit("has-dropdown");
        reveal_strlit("is-expanded");
        reveal_strlit("is-tab");
        reveal_strlit("is-active");
    }
    let mut class = class_from("navbar-item");
    push_extra(&mut class, &props.classes);
    push_flag(&mut class, props.has_dropdown, "has-dropdown");
    push_flag(&mut class, props.expanded, "is-expanded");
    push_flag(&mut class, props.tab, "is-tab");
    push_flag(&mut class, props.active, "is-active");
    match props.tag {
        NavbarItemTag::A => {
            let link = LinkAttributes {
                href: or_empty(&props.href),
                rel: or_empty(&props.rel),
                target: or_empty(&props.target),
            };
            NavbarItemMarkup { class, link: Some(link) }
        },
        NavbarItemTag::Div => NavbarItemMarkup { class, link: None },
    }
}

#[derive(Clone, Debug, PartialEq)]
pub struct NavbarDividerProps {
    pub classes: Option<Classes>,
}

/// An element to display a horizontal rule in a navbar-dropdown.
///
/// [https://bulma.io/documentation/components/navbar/#dropdown-menu](https://bulma.io/documentation/components/navbar/#dropdown-menu)
pub fn navbar_divider(props: &NavbarDividerProps) -> (class: Classes)
    ensures
        class_names(class) == with_extra(seq!["navbar-divider"@], props.classes),
{
    proof {
        reveal_strlit("navbar-divider");
    }
    let mut class = class_from("navbar-divider");
    push_extra(&mut class, &props.classes);
    class
}

#[derive(Clone, Debug, PartialEq)]
pub struct NavbarDropdownProps {
    pub classes: Option<Classes>,
    /// Make this dropdown triggerable based on hover.
    pub hoverable: bool,
    /// Configure this manu to be a dropup.
    pub dropup: bool,
    /// Render the contents of this dropdown to the right.
    pub right: bool,
    /// Remove the arrow from the dropdown menu trigger.
    pub arrowless: bool,
    /// Use the boxed style for the dropdown, typically coupled with a transparent navbar.
    pub boxed: bool,
}

impl NavbarDropdownProps {
    /// The classes of the item that holds the dropdown: `navbar-item` and
    /// `has-dropdown`, the extra classes, `has-dropdown-up` for a dropup,
    /// `is-hoverable` if it opens on hover, `is-active` while its menu is shown.
    pub open spec fn class(self, is_menu_active: bool) -> Seq<Seq<char>> {
        let names = with_class(seq!["navbar-item"@], "has-dropdown"@);
        let names = with_extra(names, self.classes);
        let names = with_flag(names, self.dropup, "has-dropdown-up"@);
        let names = with_flag(names, self.hoverable, "is-hoverable"@);
        with_flag(names, is_menu_active, "is-active"@)
    }

    /// The classes of the menu: `navbar-dropdown`, `is-right` and `is-boxed`
    /// as asked for.
    pub open spec fn dropdown_class(self) -> Seq<Seq<char>> {
        let names = with_flag(seq!["navbar-dropdown"@], self.right, "is-right"@);
        with_flag(names, self.boxed, "is-boxed"@)
    }

    /// The classes of the link that opens the menu: `navbar-link`, and
    /// `is-arrowless` if asked for.
    pub open spec fn link_class(self) -> Seq<Seq<char>> {
        with_flag(seq!["navbar-link"@], self.arrowless, "is-arrowless"@)
    }
}

/// What the markup of a navbar dropdown is made from.
#[derive(Debug)]
pub struct NavbarDropdownMarkup {
    /// The classes of the item that holds the dropdown.
    pub class: Classes,
    /// The classes of the menu.
    pub dropdown_class: Classes,
    /// The classes of the link that opens the menu.
    pub link_class: Classes,
    /// What a click on the link sends.
    pub on_trigger: Option<DropdownMsg>,
    /// What a click on the overlay sends; without it there is no overlay.
    pub on_overlay: Option<DropdownMsg>,
}

/// A navbar dropdown menu, which can include navbar items and dividers.
///
/// This component is a composite of all of the elements needed in order to properly generate
/// a navbar dropdown component.
///
/// [https://bulma.io/documentation/components/navbar/#dropdown-menu](https://bulma.io/documentation/components/navbar/#dropdown-menu)
#[derive(Debug)]
pub struct NavbarDropdown {
    is_menu_active: bool,
}

impl NavbarDropdown {
    /// Whether the menu is shown.
    pub closed spec fn menu_active(&self) -> bool {
        self.is_menu_active
    }

    /// A dropdown whose menu is hidden.
    pub fn create() -> (dropdown: NavbarDropdown)
        ensures
            !dropdown.menu_active(),
    {
        NavbarDropdown { is_menu_active: false }
    }

    /// Whether the menu is shown.
    #[verifier::when_used_as_spec(menu_active)]
    pub fn is_menu_active(&self) -> (active: bool)
        ensures
            active == self.menu_active(),
    {
        self.is_menu_active
    }

    /// Handles one message, and says whether the dropdown is to be rendered anew.
    pub fn update(&mut self, props: &NavbarDropdownProps, msg: DropdownMsg) -> (render: bool)
        ensures
            (final(self).menu_active(), render) == dropdown_after(
                old(self).menu_active(),
                props.hoverable,
                msg,
            ),
    {
        if props.hoverable {
            return false;
        }
        match msg {
            DropdownMsg::Open => self.is_menu_active = true,
            DropdownMsg::Close => self.is_menu_active = false,
        }
        true
    }

    /// The markup of the dropdown in its present state.
    pub fn view(&self, props: &NavbarDropdownProps) -> (markup: NavbarDropdownMarkup)
        ensures
            class_names(markup.class) == props.class(self.menu_active()),
            class_names(markup.dropdown_class) == props.dropdown_class(),
            class_names(markup.link_class) == props.link_class(),
            markup.on_trigger == dropdown_trigger_msg(props.hoverable),
            markup.on_overlay == dropdown_overlay_msg(self.menu_active()),
    {
        proof {
            reveal_strlit("navbar-item");
            reveal_strlit("has-dropdown");
            reveal_strlit("has-dropdown-up");
            reveal_strlit("navbar-dropdown");
            reveal_strlit("is-right");
            reveal_strlit("is-boxed");
            reveal_strlit("navbar-link");
            reveal_strlit("is-arrowless");
            reveal_strlit("is-hoverable");
            reveal_strlit("is-active");
        }
        // navbar-item classes
        let mut class = class_from("navbar-item");
        push_class(&mut class, "has-dropdown");
        push_extra(&mut class, &props.classes);
        push_flag(&mut class, props.dropup, "has-dropdown-up");

        // navbar-dropdown classes
        let mut dropdown_class = class_from("navbar-dropdown");
        push_flag(&mut dropdown_class, props.right, "is-right");
        push_flag(&mut dropdown_class, props.boxed, "is-boxed");

        // navbar-link classes
        let mut link_class = class_from("navbar-link");
        push_flag(&mut link_class, props.arrowless, "is-arrowless");

        let on_trigger = if props.hoverable {
            push_class(&mut class, "is-hoverable");
            None
        } else {
            Some(DropdownMsg::Open)
        };
        let on_overlay = if self.is_menu_active {
            push_class(&mut class, "is-active");
            Some(DropdownMsg::Close)
        } else {
            None
        };
        NavbarDropdownMarkup { class, dropdown_class, link_class, on_trigger, on_overlay }
    }
}

} // verus!
