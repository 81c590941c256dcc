use ybc::{
    checkbox, control, field, input, multi_select, radio, select, text_area, AddonsAlign,
    Alignment, CheckboxProps, ControlProps, FieldProps, FileProps, GroupedAlign, InputProps,
    InputType, MultiSelectProps, RadioProps, SelectProps, Size, TextAreaProps,
};
use yew::Classes;

fn extra(classes: &'static str) -> Option<Classes> {
    Some(Classes::from(classes))
}

fn field_props() -> FieldProps {
    FieldProps {
        classes: Classes::new(),
        label: None,
        label_classes: Classes::new(),
        help: None,
        help_classes: Classes::new(),
        help_has_error: false,
        icons_left: false,
        icons_right: false,
        addons: false,
        addons_align: None,
        grouped: false,
        grouped_align: None,
        multiline: false,
        horizontal: false,
    }
}

fn names(classes: &Option<Classes>) -> Option<String> {
    classes.as_ref().map(|classes| classes.to_string())
}

#[test]
fn bare_field() {
    let markup = field(&field_props());
    assert_eq!(markup.class.to_string(), "field");
    assert!(markup.label.is_none());
    assert!(markup.help.is_none());
    assert!(markup.body_class.is_none());
}

#[test]
fn field_with_every_modifier() {
    let mut props = field_props();
    props.classes = Classes::from("mb-4");
    props.icons_left = true;
    props.icons_right = true;
    props.addons = true;
    props.grouped = true;
    props.multiline = true;
    props.addons_align = Some(AddonsAlign::Centered);
    props.grouped_align = Some(GroupedAlign::Right);
    let markup = field(&props);
    assert_eq!(
        markup.class.to_string(),
        "field mb-4 has-icons-left has-icons-right has-addons is-grouped is-multiline \
         has-addons-centered is-grouped-right"
    );
}

#[test]
fn field_label_without_extra_classes() {
    let mut props = field_props();
    props.label = Some("Name".to_string());
    let label = field(&props).label.expect("a label");
    assert_eq!(label.text, "Name");
    assert_eq!(label.class.to_string(), "label");
    assert_eq!(names(&label.container_class), None);
}

#[test]
fn field_label_with_extra_classes() {
    let mut props = field_props();
    props.label = Some("Name".to_string());
    props.label_classes = Classes::from("is-small");
    let label = field(&props).label.expect("a label");
    assert_eq!(label.class.to_string(), "is-small label");
    assert_eq!(names(&label.container_class), None);
}

#[test]
fn horizontal_field_label_without_extra_classes() {
    let mut props = field_props();
    props.label = Some("Name".to_string());
    props.horizontal = true;
    let markup = field(&props);
    let label = markup.label.expect("a label");
    assert_eq!(label.text, "Name");
    assert_eq!(label.class.to_string(), "label");
    assert_eq!(names(&label.container_class), Some("field-label".to_string()));
    assert_eq!(names(&markup.body_class), Some("field-body".to_string()));
}

#[test]
fn horizontal_field_label_with_extra_classes() {
    let mut props = field_props();
    props.label = Some("Name".to_string());
    props.label_classes = Classes::from("is-normal");
    props.horizontal = true;
    let label = field(&props).label.expect("a label");
    assert_eq!(label.class.to_string(), "label");
    assert_eq!(names(&label.container_class), Some("is-normal field-label".to_string()));
}

#[test]
fn horizontal_field_without_label_has_a_body_only() {
    let mut props = field_props();
    props.horizontal = true;
    props.label_classes = Classes::from("is-normal");
    let markup = field(&props);
    assert!(markup.label.is_none());
    assert_eq!(names(&markup.body_class), Some("field-body".to_string()));
}

#[test]
fn field_help_message() {
    let mut props = field_props();
    props.help = Some("Required".to_string());
    let help = field(&props).help.expect("a help message");
    assert_eq!(help.text, "Required");
    assert_eq!(help.class.to_string(), "help");

    props.help_has_error = true;
    let help = field(&props).help.expect("a help message");
    assert_eq!(help.class.to_string(), "help is-danger");

    props.help_classes = Classes::from("is-size-7");
    let help = field(&props).help.expect("a help message");
    assert_eq!(help.class.to_string(), "help is-size-7 is-danger");

    props.help_has_error = false;
    let help = field(&props).help.expect("a help message");
    assert_eq!(help.class.to_string(), "help is-size-7");
}

#[test]
fn field_without_help_ignores_the_help_modifiers() {
    let mut props = field_props();
    props.help_has_error = true;
    props.help_classes = Classes::from("is-size-7");
    assert!(field(&props).help.is_none());
}

#[test]
fn checkbox_markup() {
    let props =
        CheckboxProps { name: "agree".to_string(), checked: false, classes: None, disabled: false };
    let markup = checkbox(&props);
    assert_eq!(markup.class.to_string(), "checkbox");
    assert!(markup.on_click);

    let props = CheckboxProps {
        name: "agree".to_string(),
        checked: true,
        classes: extra("ml-2"),
        disabled: true,
    };
    let markup = checkbox(&props);
    assert_eq!(markup.class.to_string(), "checkbox ml-2");
    assert!(!markup.on_click);
}

#[test]
fn control_classes() {
    let props = ControlProps { classes: extra("has-icons-left"), tag: "div".to_string(), expanded: true };
    assert_eq!(control(&props).to_string(), "control has-icons-left is-expanded");
    let props = ControlProps { classes: None, tag: "p".to_string(), expanded: false };
    assert_eq!(control(&props).to_string(), "control");
}

#[test]
fn file_classes_with_every_modifier() {
    let props = FileProps {
        name: "upload".to_string(),
        selector_label: "Choose a file...".to_string(),
        classes: extra("is-info"),
        has_name: Some("nothing selected".to_string()),
        right: true,
        fullwidth: true,
        boxed: true,
        multiple: true,
        size: Some(Size::Large),
        alignment: Some(Alignment::Centered),
    };
    assert_eq!(
        ybc::form::file::file(&props).to_string(),
        "file is-info has-name is-right is-fullwidth is-boxed is-large is-centered"
    );
}

#[test]
fn file_classes_without_modifiers() {
    let props = FileProps {
        name: "upload".to_string(),
        selector_label: "Choose a file...".to_string(),
        classes: None,
        has_name: None,
        right: false,
        fullwidth: false,
        boxed: false,
        multiple: false,
        size: None,
        alignment: None,
    };
    assert_eq!(ybc::form::file::file(&props).to_string(), "file");
}

#[test]
fn file_has_name_even_for_an_empty_placeholder() {
    let props = FileProps {
        name: "upload".to_string(),
        selector_label: "Choose a file...".to_string(),
        classes: None,
        has_name: Some(String::new()),
        right: false,
        fullwidth: false,
        boxed: true,
        multiple: false,
        size: None,
        alignment: None,
    };
    assert_eq!(ybc::form::file::file(&props).to_string(), "file has-name is-boxed");
}

#[test]
fn input_classes() {
    let props = InputProps {
        name: "email".to_string(),
        value: "a@b.c".to_string(),
        classes: extra("is-danger"),
        input_type: InputType::Email,
        placeholder: "mail".to_string(),
        size: Some(Size::Small),
        rounded: true,
        loading: true,
        disabled: true,
        readonly: true,
        is_static: true,
    };
    assert_eq!(
        input(&props).to_string(),
        "input is-danger is-small is-rounded is-loading is-static"
    );
    assert_eq!(props.input_type.to_string(), "email");

    let props = InputProps {
        name: "name".to_string(),
        value: String::new(),
        classes: None,
        input_type: InputType::Text,
        placeholder: String::new(),
        size: None,
        rounded: false,
        loading: false,
        disabled: false,
        readonly: false,
        is_static: false,
    };
    assert_eq!(input(&props).to_string(), "input");
}

fn radio_props(value: &str, checked_value: Option<&str>) -> RadioProps {
    RadioProps {
        name: "choice".to_string(),
        value: value.to_string(),
        checked_value: checked_value.map(|selected| selected.to_string()),
        classes: None,
        disabled: false,
    }
}

#[test]
fn radio_is_checked_when_its_value_is_selected() {
    let markup = radio(&radio_props("b", Some("b")));
    assert_eq!(markup.class.to_string(), "radio");
    assert!(markup.checked);
}

#[test]
fn radio_is_not_checked_otherwise() {
    assert!(!radio(&radio_props("b", Some("a"))).checked);
    assert!(!radio(&radio_props("b", Some(""))).checked);
    assert!(!radio(&radio_props("b", None)).checked);
    assert!(!radio(&radio_props("", None)).checked);
    assert!(radio(&radio_props("", Some(""))).checked);
}

#[test]
fn radio_classes() {
    let mut props = radio_props("b", None);
    props.classes = extra("mr-2");
    assert_eq!(radio(&props).class.to_string(), "radio mr-2");
}

#[test]
fn select_classes() {
    let props = SelectProps {
        name: "kind".to_string(),
        value: "x".to_string(),
        classes: extra("is-primary"),
        size: Some(Size::Medium),
        loading: true,
        disabled: false,
    };
    assert_eq!(select(&props).to_string(), "select is-primary is-medium is-loading");
    let props = SelectProps {
        name: "kind".to_string(),
        value: "x".to_string(),
        classes: None,
        size: None,
        loading: false,
        disabled: true,
    };
    assert_eq!(select(&props).to_string(), "select");
}

#[test]
fn multi_select_classes() {
    let props = MultiSelectProps {
        name: "kinds".to_string(),
        value: vec!["x".to_string(), "y".to_string()],
        classes: extra("is-primary"),
        size: Some(Size::Large),
        list_size: 4,
        loading: true,
        disabled: false,
    };
    assert_eq!(
        multi_select(&props).to_string(),
        "select is-multiple is-primary is-large is-loading"
    );
    let props = MultiSelectProps {
        name: "kinds".to_string(),
        value: vec![],
        classes: None,
        size: None,
        list_size: 8,
        loading: false,
        disabled: false,
    };
    assert_eq!(multi_select(&props).to_string(), "select is-multiple");
}

#[test]
fn text_area_classes() {
    let props = TextAreaProps {
        name: "notes".to_string(),
        value: "hello".to_string(),
        classes: extra("is-link"),
        placeholder: String::new(),
        rows: 3,
        size: Some(Size::Small),
        fixed_size: true,
        loading: true,
        disabled: false,
        readonly: false,
        is_static: true,
    };
    assert_eq!(
        text_area(&props).to_string(),
        "textarea is-link is-small is-loading is-static has-fixed-size"
    );
    let props = TextAreaProps {
        name: "notes".to_string(),
        value: String::new(),
        classes: None,
        placeholder: String::new(),
        rows: 0,
        size: None,
        fixed_size: true,
        loading: false,
        disabled: false,
        readonly: false,
        is_static: false,
    };
    assert_eq!(text_area(&props).to_string(), "textarea has-fixed-size");
}
