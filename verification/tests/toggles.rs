use ybc::{
    modal, modal_card, Dropdown, DropdownMsg, DropdownProps, ModalCardProps, ModalMsg, ModalProps,
    Navbar, NavbarDropdown, NavbarDropdownProps, NavbarFixed, NavbarMsg, NavbarProps,
};
use yew::Classes;

fn dropdown_props(hoverable: bool) -> DropdownProps {
    DropdownProps { classes: None, hoverable, button_classes: None }
}

fn navbar_props() -> NavbarProps {
    NavbarProps {
        classes: None,
        fixed: None,
        transparent: false,
        spaced: false,
        padded: false,
        navburger: true,
        navburger_classes: None,
    }
}

fn navbar_dropdown_props() -> NavbarDropdownProps {
    NavbarDropdownProps {
        classes: None,
        hoverable: false,
        dropup: false,
        right: false,
        arrowless: false,
        boxed: false,
    }
}

#[test]
fn dropdown_opens_and_closes() {
    let props = dropdown_props(false);
    let mut dropdown = Dropdown::create();
    assert!(!dropdown.is_menu_active());
    assert!(dropdown.update(&props, DropdownMsg::Open));
    assert!(dropdown.is_menu_active());
    assert!(dropdown.update(&props, DropdownMsg::Open));
    assert!(dropdown.is_menu_active());
    assert!(dropdown.update(&props, DropdownMsg::Close));
    assert!(!dropdown.is_menu_active());
}

#[test]
fn hoverable_dropdown_ignores_messages() {
    let props = dropdown_props(true);
    let mut dropdown = Dropdown::create();
    assert!(!dropdown.update(&props, DropdownMsg::Open));
    assert!(!dropdown.is_menu_active());
    assert!(!dropdown.update(&props, DropdownMsg::Close));
    assert!(!dropdown.is_menu_active());
}

#[test]
fn dropdown_markup_follows_the_state() {
    let props = DropdownProps {
        classes: Some(Classes::from("is-right")),
        hoverable: false,
        button_classes: None,
    };
    let mut dropdown = Dropdown::create();
    let closed = dropdown.view(&props);
    assert_eq!(closed.class.to_string(), "dropdown is-right");
    assert_eq!(closed.on_trigger, Some(DropdownMsg::Open));
    assert_eq!(closed.on_overlay, None);

    dropdown.update(&props, DropdownMsg::Open);
    let open = dropdown.view(&props);
    assert_eq!(open.class.to_string(), "dropdown is-right is-active");
    assert_eq!(open.on_trigger, Some(DropdownMsg::Open));
    assert_eq!(open.on_overlay, Some(DropdownMsg::Close));
}

#[test]
fn hoverable_dropdown_markup_has_no_trigger_message() {
    let props = dropdown_props(true);
    let markup = Dropdown::create().view(&props);
    assert_eq!(markup.class.to_string(), "dropdown is-hoverable");
    assert_eq!(markup.on_trigger, None);
    assert_eq!(markup.on_overlay, None);
}

#[test]
fn navbar_burger_toggles_the_menu() {
    let mut navbar = Navbar::create();
    assert!(!navbar.is_menu_open());
    assert!(navbar.update(NavbarMsg::ToggleMenu));
    assert!(navbar.is_menu_open());
    assert!(navbar.update(NavbarMsg::ToggleMenu));
    assert!(!navbar.is_menu_open());
}

#[test]
fn navbar_markup_of_a_closed_menu() {
    let mut props = navbar_props();
    props.classes = Some(Classes::from("is-dark"));
    props.fixed = Some(NavbarFixed::Top);
    props.navburger_classes = Some(Classes::from("is-hidden-desktop"));
    let markup = Navbar::create().view(&props);
    assert_eq!(markup.class.to_string(), "navbar is-dark is-fixed-top");
    assert_eq!(markup.menu_class.to_string(), "navbar-menu");
    assert_eq!(markup.burger_class.to_string(), "navbar-burger is-hidden-desktop");
    assert_eq!(markup.aria_expanded, "false");
    assert_eq!(markup.on_burger, NavbarMsg::ToggleMenu);
}

#[test]
fn navbar_markup_of_an_open_menu() {
    let mut props = navbar_props();
    props.fixed = Some(NavbarFixed::Bottom);
    props.transparent = true;
    props.spaced = true;
    let mut navbar = Navbar::create();
    navbar.update(NavbarMsg::ToggleMenu);
    let markup = navbar.view(&props);
    assert_eq!(markup.class.to_string(), "navbar is-fixed-bottom");
    assert_eq!(markup.menu_class.to_string(), "navbar-menu is-active");
    assert_eq!(markup.burger_class.to_string(), "navbar-burger is-active");
    assert_eq!(markup.aria_expanded, "true");
}

#[test]
fn navbar_dropdown_opens_and_closes() {
    let props = navbar_dropdown_props();
    let mut dropdown = NavbarDropdown::create();
    assert!(!dropdown.is_menu_active());
    assert!(dropdown.update(&props, DropdownMsg::Open));
    assert!(dropdown.is_menu_active());
    assert!(dropdown.update(&props, DropdownMsg::Close));
    assert!(!dropdown.is_menu_active());

    let mut hover = navbar_dropdown_props();
    hover.hoverable = true;
    assert!(!dropdown.update(&hover, DropdownMsg::Open));
    assert!(!dropdown.is_menu_active());
}

#[test]
fn navbar_dropdown_markup_with_every_modifier() {
    let props = NavbarDropdownProps {
        classes: Some(Classes::from("mine")),
        hoverable: true,
        dropup: true,
        right: true,
        arrowless: true,
        boxed: true,
    };
    let markup = NavbarDropdown::create().view(&props);
    assert_eq!(
        markup.class.to_string(),
        "navbar-item has-dropdown mine has-dropdown-up is-hoverable"
    );
    assert_eq!(markup.dropdown_class.to_string(), "navbar-dropdown is-right is-boxed");
    assert_eq!(markup.link_class.to_string(), "navbar-link is-arrowless");
    assert_eq!(markup.on_trigger, None);
    assert_eq!(markup.on_overlay, None);
}

#[test]
fn navbar_dropdown_markup_of_an_open_menu() {
    let props = navbar_dropdown_props();
    let mut dropdown = NavbarDropdown::create();
    dropdown.update(&props, DropdownMsg::Open);
    let markup = dropdown.view(&props);
    assert_eq!(markup.class.to_string(), "navbar-item has-dropdown is-active");
    assert_eq!(markup.dropdown_class.to_string(), "navbar-dropdown");
    assert_eq!(markup.link_class.to_string(), "navbar-link");
    assert_eq!(markup.on_trigger, Some(DropdownMsg::Open));
    assert_eq!(markup.on_overlay, Some(DropdownMsg::Close));
}

#[test]
fn navbar_dropdown_keeps_a_class_given_twice_once() {
    let mut props = navbar_dropdown_props();
    props.classes = Some(Classes::from("has-dropdown is-active"));
    let mut dropdown = NavbarDropdown::create();
    dropdown.update(&props, DropdownMsg::Open);
    let markup = dropdown.view(&props);
    assert_eq!(markup.class.to_string(), "navbar-item has-dropdown is-active");
}

#[test]
fn closed_modal_markup() {
    let props = ModalProps { id: "m".to_string(), classes: Classes::from("wide") };
    let markup = modal(&props, false);
    assert_eq!(markup.class.to_string(), "modal wide");
    assert!(matches!(markup.on_trigger, Some(ModalMsg::Open)));
    assert!(matches!(markup.on_close, None));
}

#[test]
fn open_modal_markup() {
    let props = ModalProps { id: "m".to_string(), classes: Classes::new() };
    let markup = modal(&props, true);
    assert_eq!(markup.class.to_string(), "modal is-active");
    assert!(matches!(markup.on_trigger, None));
    assert!(matches!(markup.on_close, Some(ModalMsg::Close)));
}

#[test]
fn modal_card_markup() {
    let props = ModalCardProps {
        id: "card".to_string(),
        title: "Title".to_string(),
        classes: Classes::from("is-clipped is-active"),
    };
    let closed = modal_card(&props, false);
    assert_eq!(closed.class.to_string(), "modal is-clipped is-active");
    assert!(matches!(closed.on_trigger, Some(ModalMsg::Open)));
    assert!(matches!(closed.on_close, None));
    let open = modal_card(&props, true);
    assert_eq!(open.class.to_string(), "modal is-clipped is-active");
    assert!(matches!(open.on_trigger, None));
    assert!(matches!(open.on_close, Some(ModalMsg::Close)));
}
