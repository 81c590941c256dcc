use ybc::{
    breadcrumb, card, card_content, card_footer, card_header, card_image, columns, menu,
    menu_label, menu_list, message, message_body, message_header, navbar_divider, navbar_item,
    pagination, pagination_ellipsis, pagination_item, panel, panel_block, panel_tabs, tabs,
    Alignment, BreadcrumbProps, BreadcrumbSeparator, BreadcrumbSize, CardContentProps,
    CardFooterProps, CardHeaderProps, CardImageProps, CardProps, ColumnProps, ColumnsProps,
    LinkAttributes, MenuLabelProps, MenuListProps, MenuProps, MessageBodyProps,
    MessageHeaderProps, MessageProps, NavbarDividerProps, NavbarItemProps, NavbarItemTag,
    PaginationItemProps, PaginationItemRouter, PaginationItemType, PaginationProps,
    PanelBlockProps, PanelProps, PanelTabsProps, RouterProps, Size, TabsProps,
};
use yew::Classes;

fn extra(classes: &'static str) -> Option<Classes> {
    Some(Classes::from(classes))
}

#[test]
fn columns_with_every_flag() {
    let props = ColumnsProps {
        classes: extra("is-mobile"),
        vcentered: true,
        multiline: true,
        centered: true,
    };
    assert_eq!(
        columns(&props).to_string(),
        "columns is-mobile is-vcentered is-multiline is-centered"
    );
}

#[test]
fn columns_without_flags() {
    let props = ColumnsProps { classes: None, vcentered: false, multiline: false, centered: false };
    assert_eq!(columns(&props).to_string(), "columns");
    let props = ColumnsProps { classes: None, vcentered: false, multiline: true, centered: false };
    assert_eq!(columns(&props).to_string(), "columns is-multiline");
}

#[test]
fn columns_keeps_a_flag_that_the_extra_classes_name_in_its_place() {
    let props = ColumnsProps {
        classes: extra("is-centered is-gapless"),
        vcentered: true,
        multiline: false,
        centered: true,
    };
    assert_eq!(columns(&props).to_string(), "columns is-centered is-gapless is-vcentered");
}

#[test]
fn column_classes() {
    assert_eq!(ybc::columns::column(&ColumnProps { classes: None }).to_string(), "column");
    assert_eq!(
        ybc::columns::column(&ColumnProps { classes: extra("is-half is-offset-1") }).to_string(),
        "column is-half is-offset-1"
    );
    assert_eq!(
        ybc::columns::column(&ColumnProps { classes: extra("column is-4") }).to_string(),
        "column is-4"
    );
}

#[test]
fn breadcrumb_classes() {
    let props = BreadcrumbProps {
        classes: extra("mb-2"),
        size: Some(BreadcrumbSize::Large),
        alignment: Some(Alignment::Centered),
        separator: Some(BreadcrumbSeparator::Dot),
    };
    assert_eq!(
        breadcrumb(&props).to_string(),
        "breadcrumb mb-2 are-large is-centered has-dot-separator"
    );
    let bare = BreadcrumbProps { classes: None, size: None, alignment: None, separator: None };
    assert_eq!(breadcrumb(&bare).to_string(), "breadcrumb");
}

#[test]
fn card_classes() {
    assert_eq!(card(&CardProps { classes: extra("wide") }).to_string(), "card wide");
    assert_eq!(card(&CardProps { classes: None }).to_string(), "card");
    assert_eq!(card_header(&CardHeaderProps { classes: None }).to_string(), "card-header");
    assert_eq!(card_image(&CardImageProps { classes: extra("a") }).to_string(), "card-image a");
    assert_eq!(card_content(&CardContentProps { classes: None }).to_string(), "card-content");
    assert_eq!(card_footer(&CardFooterProps { classes: extra("b c") }).to_string(), "card-footer b c");
}

#[test]
fn menu_classes() {
    assert_eq!(menu(&MenuProps { classes: extra("side") }).to_string(), "menu side");
    assert_eq!(menu_list(&MenuListProps { classes: None }).to_string(), "menu-list");
    let label = MenuLabelProps { classes: extra("caps"), text: "General".to_string() };
    assert_eq!(menu_label(&label).to_string(), "menu-label caps");
}

#[test]
fn message_classes() {
    assert_eq!(message(&MessageProps { classes: extra("is-dark") }).to_string(), "message is-dark");
    assert_eq!(message_header(&MessageHeaderProps { classes: None }).to_string(), "message-header");
    assert_eq!(message_body(&MessageBodyProps { classes: None }).to_string(), "message-body");
}

#[test]
fn navbar_item_as_a_link() {
    let props = NavbarItemProps {
        classes: extra("brand"),
        tag: NavbarItemTag::A,
        has_dropdown: true,
        expanded: true,
        tab: true,
        active: true,
        href: Some("/home".to_string()),
        rel: None,
        target: Some("_blank".to_string()),
    };
    let markup = navbar_item(&props);
    assert_eq!(
        markup.class.to_string(),
        "navbar-item brand has-dropdown is-expanded is-tab is-active"
    );
    assert_eq!(
        markup.link,
        Some(LinkAttributes {
            href: "/home".to_string(),
            rel: String::new(),
            target: "_blank".to_string(),
        })
    );
}

#[test]
fn navbar_item_as_a_div_is_no_link() {
    let props = NavbarItemProps {
        classes: None,
        tag: NavbarItemTag::Div,
        has_dropdown: false,
        expanded: false,
        tab: true,
        active: false,
        href: Some("/ignored".to_string()),
        rel: None,
        target: None,
    };
    let markup = navbar_item(&props);
    assert_eq!(markup.class.to_string(), "navbar-item is-tab");
    assert_eq!(markup.link, None);
}

#[test]
fn navbar_divider_classes() {
    assert_eq!(navbar_divider(&NavbarDividerProps { classes: None }).to_string(), "navbar-divider");
    assert_eq!(
        navbar_divider(&NavbarDividerProps { classes: extra("thin") }).to_string(),
        "navbar-divider thin"
    );
}

#[test]
fn pagination_classes() {
    let props = PaginationProps {
        classes: extra("mt-4"),
        size: Some(Size::Small),
        alignment: Some(Alignment::Right),
        rounded: true,
    };
    assert_eq!(pagination(&props).to_string(), "pagination mt-4 is-small is-right is-rounded");
    let bare = PaginationProps { classes: None, size: None, alignment: None, rounded: false };
    assert_eq!(pagination(&bare).to_string(), "pagination");
}

#[test]
fn pagination_item_class() {
    let item = |item_type| PaginationItemProps { item_type, label: "page".to_string() };
    assert_eq!(pagination_item(&item(PaginationItemType::Link)), "pagination-link");
    assert_eq!(pagination_item(&item(PaginationItemType::Next)), "pagination-next");
    assert_eq!(pagination_item(&item(PaginationItemType::Previous)), "pagination-previous");
}

#[test]
fn pagination_ellipsis_class() {
    assert_eq!(pagination_ellipsis().to_string(), "pagination-ellipsis");
}

#[test]
fn pagination_item_router_class() {
    let router = PaginationItemRouter::create();
    let props = RouterProps { item_type: PaginationItemType::Next };
    assert_eq!(router.view(&props).to_string(), "pagination-next");
    let props = RouterProps { item_type: PaginationItemType::Link };
    assert_eq!(router.view(&props).to_string(), "pagination-link");
}

#[test]
fn panel_classes() {
    assert_eq!(panel(&PanelProps { classes: extra("is-info") }).to_string(), "panel is-info");
    assert_eq!(panel_tabs(&PanelTabsProps {}).to_string(), "panel-tabs");
    let block = |active| PanelBlockProps { tag: "a".to_string(), active };
    assert_eq!(panel_block(&block(true)).to_string(), "panel-block is-active");
    assert_eq!(panel_block(&block(false)).to_string(), "panel-block");
}

#[test]
fn tabs_classes() {
    let props = TabsProps {
        classes: extra("mb-0"),
        alignment: Some(Alignment::Centered),
        size: Some(Size::Medium),
        boxed: true,
        toggle: true,
        rounded: true,
        fullwidth: true,
    };
    assert_eq!(
        tabs(&props).to_string(),
        "tabs mb-0 is-centered is-medium is-boxed is-toggle is-rounded is-fullwidth"
    );
    let bare = TabsProps {
        classes: None,
        alignment: None,
        size: None,
        boxed: false,
        toggle: true,
        rounded: false,
        fullwidth: false,
    };
    assert_eq!(tabs(&bare).to_string(), "tabs is-toggle");
}
