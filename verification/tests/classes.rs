use ybc::classes::{push_class, push_extra, push_flag, push_modifier};
use ybc::{
    AddonsAlign, Alignment, BreadcrumbSeparator, BreadcrumbSize, ButtonGroupSize, GroupedAlign,
    HeaderSize, HeroSize, ImageSize, InputType, LabelSize, Modifier, NavbarFixed, NavbarItemTag,
    PaginationItemType, SectionSize, Size, TileCtx, TileSize,
};
use yew::Classes;

#[test]
fn push_class_appends_a_new_name() {
    let mut classes = Classes::from("a");
    push_class(&mut classes, "b");
    push_class(&mut classes, "c");
    assert_eq!(classes.to_string(), "a b c");
}

#[test]
fn push_class_ignores_a_name_that_is_there() {
    let mut classes = Classes::from("a b c");
    push_class(&mut classes, "b");
    assert_eq!(classes.to_string(), "a b c");
    push_class(&mut classes, "a");
    assert_eq!(classes.to_string(), "a b c");
}

#[test]
fn push_class_into_an_empty_list() {
    let mut classes = Classes::new();
    push_class(&mut classes, "only");
    assert_eq!(classes.to_string(), "only");
    assert!(classes.contains("only"));
}

#[test]
fn push_flag_adds_only_when_set() {
    let mut classes = Classes::from("base");
    push_flag(&mut classes, false, "is-off");
    assert_eq!(classes.to_string(), "base");
    push_flag(&mut classes, true, "is-on");
    assert_eq!(classes.to_string(), "base is-on");
    push_flag(&mut classes, true, "is-on");
    assert_eq!(classes.to_string(), "base is-on");
}

#[test]
fn push_extra_adds_each_missing_class_in_order() {
    let mut classes = Classes::from("a b");
    push_extra(&mut classes, &Some(Classes::from("c b d a e")));
    assert_eq!(classes.to_string(), "a b c d e");
}

#[test]
fn push_extra_without_classes_changes_nothing() {
    let mut classes = Classes::from("a b");
    push_extra(&mut classes, &None);
    assert_eq!(classes.to_string(), "a b");
    push_extra(&mut classes, &Some(Classes::new()));
    assert_eq!(classes.to_string(), "a b");
}

#[test]
fn push_extra_into_an_empty_list_copies_the_classes() {
    let mut classes = Classes::new();
    let extra = Some(Classes::from("x y"));
    push_extra(&mut classes, &extra);
    assert_eq!(classes.to_string(), "x y");
    assert_eq!(extra, Some(Classes::from("x y")));
}

#[test]
fn push_modifier_adds_the_class_of_the_modifier() {
    let mut classes = Classes::from("button");
    push_modifier(&mut classes, &Some(Size::Large));
    push_modifier::<Alignment>(&mut classes, &None);
    push_modifier(&mut classes, &Some(Alignment::Right));
    push_modifier(&mut classes, &Some(Size::Large));
    assert_eq!(classes.to_string(), "button is-large is-right");
}

#[test]
fn alignment_classes() {
    assert_eq!(Alignment::Left.to_string(), "is-left");
    assert_eq!(Alignment::Centered.to_string(), "is-centered");
    assert_eq!(Alignment::Right.to_string(), "is-right");
}

#[test]
fn size_classes() {
    assert_eq!(Size::Small.to_string(), "is-small");
    assert_eq!(Size::Normal.to_string(), "is-normal");
    assert_eq!(Size::Medium.to_string(), "is-medium");
    assert_eq!(Size::Large.to_string(), "is-large");
}

#[test]
fn size_as_an_attribute_value() {
    assert_eq!(Size::Small.into_prop_value(), "is-small");
    assert_eq!(Size::Normal.into_prop_value(), "is-normal");
    assert_eq!(Size::Medium.into_prop_value(), "is-medium");
    assert_eq!(Size::Large.into_prop_value(), "is-large");
}

#[test]
fn breadcrumb_modifier_classes() {
    assert_eq!(BreadcrumbSize::Small.to_string(), "are-small");
    assert_eq!(BreadcrumbSize::Medium.to_string(), "are-medium");
    assert_eq!(BreadcrumbSize::Large.to_string(), "are-large");
    assert_eq!(BreadcrumbSeparator::Arrow.to_string(), "has-arrow-separator");
    assert_eq!(BreadcrumbSeparator::Bullet.to_string(), "has-bullet-separator");
    assert_eq!(BreadcrumbSeparator::Dot.to_string(), "has-dot-separator");
    assert_eq!(BreadcrumbSeparator::Succeeds.to_string(), "has-succeeds-separator");
}

#[test]
fn navbar_modifier_texts() {
    assert_eq!(NavbarFixed::Top.to_string(), "is-fixed-top");
    assert_eq!(NavbarFixed::Bottom.to_string(), "is-fixed-bottom");
    assert_eq!(NavbarItemTag::A.to_string(), "a");
    assert_eq!(NavbarItemTag::Div.to_string(), "div");
}

#[test]
fn pagination_item_type_classes() {
    assert_eq!(PaginationItemType::Link.to_string(), "pagination-link");
    assert_eq!(PaginationItemType::Next.to_string(), "pagination-next");
    assert_eq!(PaginationItemType::Previous.to_string(), "pagination-previous");
}

#[test]
fn button_group_size_classes() {
    assert_eq!(ButtonGroupSize::Small.to_string(), "are-small");
    assert_eq!(ButtonGroupSize::Medium.to_string(), "are-medium");
    assert_eq!(ButtonGroupSize::Large.to_string(), "are-large");
}

#[test]
fn image_size_classes() {
    let all = vec![
        (ImageSize::Is16x16, "is-16x16"),
        (ImageSize::Is24x24, "is-24x24"),
        (ImageSize::Is32x32, "is-32x32"),
        (ImageSize::Is48x48, "is-48x48"),
        (ImageSize::Is64x64, "is-64x64"),
        (ImageSize::Is96x96, "is-96x96"),
        (ImageSize::Is128x128, "is-128x128"),
        (ImageSize::IsSquare, "is-Square"),
        (ImageSize::Is1by1, "is-1by1"),
        (ImageSize::Is5by4, "is-5by4"),
        (ImageSize::Is4by3, "is-4by3"),
        (ImageSize::Is3by2, "is-3by2"),
        (ImageSize::Is5by3, "is-5by3"),
        (ImageSize::Is16by9, "is-16by9"),
        (ImageSize::Is2by1, "is-2by1"),
        (ImageSize::Is3by1, "is-3by1"),
        (ImageSize::Is4by5, "is-4by5"),
        (ImageSize::Is3by4, "is-3by4"),
        (ImageSize::Is2by3, "is-2by3"),
        (ImageSize::Is3by5, "is-3by5"),
        (ImageSize::Is9by16, "is-9by16"),
        (ImageSize::Is1by2, "is-1by2"),
        (ImageSize::Is1by3, "is-1by3"),
    ];
    for (size, class) in all {
        assert_eq!(size.to_string(), class);
    }
}

#[test]
fn header_size_classes() {
    assert_eq!(HeaderSize::Is1.to_string(), "is-1");
    assert_eq!(HeaderSize::Is2.to_string(), "is-2");
    assert_eq!(HeaderSize::Is3.to_string(), "is-3");
    assert_eq!(HeaderSize::Is4.to_string(), "is-4");
    assert_eq!(HeaderSize::Is5.to_string(), "is-5");
    assert_eq!(HeaderSize::Is6.to_string(), "is-6");
}

#[test]
fn field_modifier_classes() {
    assert_eq!(AddonsAlign::Centered.to_string(), "has-addons-centered");
    assert_eq!(AddonsAlign::Right.to_string(), "has-addons-right");
    assert_eq!(GroupedAlign::Centered.to_string(), "is-grouped-centered");
    assert_eq!(GroupedAlign::Right.to_string(), "is-grouped-right");
    assert_eq!(LabelSize::Small.to_string(), "is-small");
    assert_eq!(LabelSize::Medium.to_string(), "is-medium");
    assert_eq!(LabelSize::Large.to_string(), "is-large");
}

#[test]
fn input_type_values() {
    assert_eq!(InputType::Text.to_string(), "text");
    assert_eq!(InputType::Password.to_string(), "password");
    assert_eq!(InputType::Email.to_string(), "email");
    assert_eq!(InputType::Tel.to_string(), "tel");
}

#[test]
fn hero_and_section_size_classes() {
    assert_eq!(HeroSize::Medium.to_string(), "is-medium");
    assert_eq!(HeroSize::Large.to_string(), "is-large");
    assert_eq!(HeroSize::Fullheight.to_string(), "is-fullheight");
    assert_eq!(HeroSize::FullheightWithNavbar.to_string(), "is-fullheight-with-navbar");
    assert_eq!(SectionSize::Medium.to_string(), "is-medium");
    assert_eq!(SectionSize::Large.to_string(), "is-large");
}

#[test]
fn tile_modifier_classes() {
    assert_eq!(TileCtx::Ancestor.to_string(), "is-ancestor");
    assert_eq!(TileCtx::Parent.to_string(), "is-parent");
    assert_eq!(TileCtx::Child.to_string(), "is-child");
    let sizes = vec![
        TileSize::One,
        TileSize::Two,
        TileSize::Three,
        TileSize::Four,
        TileSize::Five,
        TileSize::Six,
        TileSize::Seven,
        TileSize::Eight,
        TileSize::Nine,
        TileSize::Ten,
        TileSize::Eleven,
        TileSize::Twelve,
    ];
    for (at, size) in sizes.iter().enumerate() {
        assert_eq!(size.to_string(), format!("is-{}", at + 1));
    }
}
