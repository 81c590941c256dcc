//! Bulma components for a reactive front end: the class list of each
//! component, the open/closed state of the interactive ones, and the registry
//! that closes any modal by its ID.
//!
//! A component is a function from its properties to the classes of its
//! elements, stated and proved over the names that the class lists hold. The
//! host renders the elements; nothing here touches a document.

pub mod classes;
pub mod columns;
pub mod common;
pub mod components;
pub mod elements;
pub mod form;
pub mod layout;
pub mod registry;

// classes
pub use classes::Modifier;

// columns
pub use columns::{columns, ColumnProps, ColumnsProps};

// common
pub use common::{Alignment, Size};

// components
pub use components::breadcrumb::{breadcrumb, BreadcrumbProps, BreadcrumbSeparator, BreadcrumbSize};
pub use components::card::{
    card, card_content, card_footer, card_header, card_image, CardContentProps, CardFooterProps,
    CardHeaderProps, CardImageProps, CardProps,
};
pub use components::dropdown::{Dropdown, DropdownMarkup, DropdownMsg, DropdownProps};
pub use components::menu::{menu, menu_label, menu_list, MenuLabelProps, MenuListProps, MenuProps};
pub use components::message::{
    message, message_body, message_header, MessageBodyProps, MessageHeaderProps, MessageProps,
};
pub use components::modal::{
    modal, modal_card, ModalCardProps, ModalCloseMsg, ModalCloser, ModalMarkup, ModalModel,
    ModalMsg, ModalProps, ModalState,
};
pub use components::navbar::{
    navbar_divider, navbar_item, LinkAttributes, Navbar, NavbarDividerProps, NavbarDropdown,
    NavbarDropdownMarkup, NavbarDropdownProps, NavbarFixed, NavbarItemMarkup, NavbarItemProps,
    NavbarItemTag, NavbarMarkup, NavbarMsg, NavbarProps,
};
pub use components::pagination::{
    pagination, pagination_ellipsis, pagination_item, PaginationItemProps, PaginationItemRouter,
    PaginationItemType, PaginationProps, RouterProps,
};
pub use components::panel::{
    panel, panel_block, panel_tabs, PanelBlockProps, PanelProps, PanelTabsProps,
};
pub use components::tabs::{tabs, TabsProps};

// elements
pub use elements::block::{block, BlockProps};
pub use elements::box_element::{box_element, BoxProps};
pub use elements::button::{
    button, button_anchor, button_input_reset, button_input_submit, buttons, ButtonAnchorMarkup,
    ButtonAnchorProps, ButtonAnchorRouter, ButtonGroupSize, ButtonInputResetProps,
    ButtonInputSubmitProps, ButtonProps, ButtonRouter, ButtonRouterProps, ButtonsProps,
};
pub use elements::content::{content, ContentProps};
pub use elements::delete::{delete, DeleteProps};
pub use elements::icon::{icon, IconProps};
pub use elements::image::{image, ImageProps, ImageSize};
pub use elements::notification::{notification, NotificationProps};
pub use elements::progress::{progress, ProgressProps};
pub use elements::table::{table, TableProps};
pub use elements::tag::{tag, tags, TagProps, TagsProps};
pub use elements::title::{subtitle, title, HeaderSize, SubtitleProps, TitleProps};

// form
pub use form::checkbox::{checkbox, CheckboxMarkup, CheckboxProps};
pub use form::control::{control, ControlProps};
pub use form::field::{
    field, AddonsAlign, FieldHelpMarkup, FieldLabelMarkup, FieldMarkup, FieldProps, GroupedAlign,
    LabelSize,
};
pub use form::file::FileProps;
pub use form::input::{input, InputProps, InputType};
pub use form::radio::{radio, RadioMarkup, RadioProps};
pub use form::select::{multi_select, select, MultiSelectProps, SelectProps};
pub use form::textarea::{text_area, TextAreaProps};

// layout
pub use layout::container::{container, ContainerProps};
pub use layout::footer::{footer, FooterProps};
pub use layout::hero::{hero, HeroMarkup, HeroProps, HeroSize};
pub use layout::level::{
    level, level_item, level_left, level_right, LevelItemProps, LevelLeftProps, LevelProps,
    LevelRightProps,
};
pub use layout::media::{
    media, media_content, media_left, media_right, MediaContentProps, MediaLeftProps, MediaProps,
    MediaRightProps,
};
pub use layout::section::{section, SectionProps, SectionSize};
pub use layout::tile::{tile, TileCtx, TileProps, TileSize};

// registry
pub use registry::{Registry, RegistryModel, SubscriberHandle};
