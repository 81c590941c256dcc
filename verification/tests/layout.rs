use ybc::{
    container, footer, hero, level, level_item, level_left, level_right, media, media_content,
    media_left, media_right, section, tile, ContainerProps, FooterProps, HeroProps, HeroSize,
    LevelItemProps, LevelLeftProps, LevelProps, LevelRightProps, MediaContentProps,
    MediaLeftProps, MediaProps, MediaRightProps, SectionProps, SectionSize, TileCtx, TileProps,
    TileSize,
};
use yew::Classes;

fn extra(classes: &'static str) -> Option<Classes> {
    Some(Classes::from(classes))
}

#[test]
fn container_classes() {
    assert_eq!(
        container(&ContainerProps { classes: extra("is-max-desktop"), fluid: true }).to_string(),
        "container is-max-desktop is-fluid"
    );
    assert_eq!(container(&ContainerProps { classes: None, fluid: false }).to_string(), "container");
}

#[test]
fn footer_classes() {
    assert_eq!(footer(&FooterProps { classes: None }).to_string(), "footer");
    assert_eq!(footer(&FooterProps { classes: extra("has-background-dark") }).to_string(), "footer has-background-dark");
}

#[test]
fn hero_with_every_modifier() {
    let props = HeroProps {
        classes: extra("is-primary"),
        head_classes: extra("top"),
        body_classes: extra("middle"),
        foot_classes: extra("bottom"),
        fixed_nav: true,
        bold: true,
        size: Some(HeroSize::Large),
    };
    let markup = hero(&props);
    assert_eq!(
        markup.class.to_string(),
        "hero is-primary is-fullheight-with-navbar is-bold is-large"
    );
    assert_eq!(markup.head_class.to_string(), "hero-head top");
    assert_eq!(markup.body_class.to_string(), "hero-body middle");
    assert_eq!(markup.foot_class.to_string(), "hero-foot bottom");
}

#[test]
fn bare_hero() {
    let props = HeroProps {
        classes: None,
        head_classes: None,
        body_classes: None,
        foot_classes: None,
        fixed_nav: false,
        bold: false,
        size: None,
    };
    let markup = hero(&props);
    assert_eq!(markup.class.to_string(), "hero");
    assert_eq!(markup.head_class.to_string(), "hero-head");
    assert_eq!(markup.body_class.to_string(), "hero-body");
    assert_eq!(markup.foot_class.to_string(), "hero-foot");
}

#[test]
fn hero_names_the_navbar_height_once() {
    let props = HeroProps {
        classes: None,
        head_classes: None,
        body_classes: None,
        foot_classes: None,
        fixed_nav: true,
        bold: false,
        size: Some(HeroSize::FullheightWithNavbar),
    };
    assert_eq!(hero(&props).class.to_string(), "hero is-fullheight-with-navbar");
}

#[test]
fn level_classes() {
    let tag = "div".to_string();
    assert_eq!(level(&LevelProps { classes: extra("is-mobile"), tag: "nav".to_string() }).to_string(), "level is-mobile");
    assert_eq!(level_left(&LevelLeftProps { classes: None, tag: tag.clone() }).to_string(), "level-left");
    assert_eq!(level_right(&LevelRightProps { classes: None, tag: tag.clone() }).to_string(), "level-right");
    assert_eq!(
        level_item(&LevelItemProps { classes: extra("has-text-centered"), tag }).to_string(),
        "level-item has-text-centered"
    );
}

#[test]
fn media_classes() {
    let tag = "div".to_string();
    assert_eq!(media(&MediaProps { classes: None, tag: "article".to_string() }).to_string(), "media");
    assert_eq!(media_left(&MediaLeftProps { classes: extra("mr-2"), tag: tag.clone() }).to_string(), "media-left mr-2");
    assert_eq!(media_right(&MediaRightProps { classes: None, tag: tag.clone() }).to_string(), "media-right");
    assert_eq!(media_content(&MediaContentProps { classes: None, tag }).to_string(), "media-content");
}

#[test]
fn section_classes() {
    assert_eq!(
        section(&SectionProps { classes: extra("pt-0"), size: Some(SectionSize::Medium) }).to_string(),
        "section pt-0 is-medium"
    );
    assert_eq!(
        section(&SectionProps { classes: None, size: Some(SectionSize::Large) }).to_string(),
        "section is-large"
    );
    assert_eq!(section(&SectionProps { classes: None, size: None }).to_string(), "section");
}

#[test]
fn tile_classes() {
    let props = TileProps {
        classes: extra("box"),
        tag: "article".to_string(),
        ctx: Some(TileCtx::Child),
        vertical: true,
        size: Some(TileSize::Eight),
    };
    assert_eq!(tile(&props).to_string(), "tile box is-child is-vertical is-8");
    let props = TileProps {
        classes: None,
        tag: "div".to_string(),
        ctx: Some(TileCtx::Ancestor),
        vertical: false,
        size: None,
    };
    assert_eq!(tile(&props).to_string(), "tile is-ancestor");
    let props =
        TileProps { classes: None, tag: "div".to_string(), ctx: None, vertical: false, size: None };
    assert_eq!(tile(&props).to_string(), "tile");
}
