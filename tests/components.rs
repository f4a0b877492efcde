use yew_styles::button::{get_size, Button, Msg, Props, Signal, Size};
use yew_styles::form_textarea::{self, get_wrap, FormTextArea, WrapText};
use yew_styles::styles::{Palette, Style};

fn hello_button_props() -> Props {
    Props {
        button_type: Palette::Standard,
        class_name: "hello-world".to_string(),
        size: Size::Medium,
        button_style: Style::Regular,
    }
}

#[test]
fn button_class_and_click() {
    let mut button = Button::create(hello_button_props());
    assert_eq!(button.class_name(), "button standard medium regular hello-world");
    let effect = button.update(Msg::Clicked);
    assert_eq!(effect.emit, Some(Signal::OnSignal));
    assert!(!effect.render);
    assert_eq!(button.class_name(), "button standard medium regular hello-world");
}

#[test]
fn button_defaults_and_change() {
    let mut button = Button::create(Props::default());
    assert_eq!(button.class_name(), "button standard medium regular");
    assert_eq!(get_size(Size::Big), "big");
    let changed = button.change(Props {
        button_type: Palette::Danger,
        class_name: String::new(),
        size: Size::Small,
        button_style: Style::Outline,
    });
    assert!(changed);
    assert_eq!(button.class_name(), "button danger small outline");
}

fn textarea_props() -> form_textarea::Props {
    form_textarea::Props {
        id: "form-input-id-test".to_string(),
        key: "".to_string(),
        class_name: "form-input-class-test".to_string(),
        error_message: "invalid input".to_string(),
        error_state: false,
        name: "input-test".to_string(),
        textarea_style: Palette::Standard,
        textarea_size: Size::Medium,
        placeholder: "test input".to_string(),
        required: false,
        autocomplete: false,
        autofocus: false,
        maxlength: 100,
        minlength: 0,
        readonly: false,
        disabled: false,
        cols: 20,
        rows: 10,
        spellcheck: true,
        wrap: WrapText::Hard,
    }
}

#[test]
fn textarea_change_only_on_difference() {
    let mut t = FormTextArea::create(textarea_props());
    assert!(!t.change(textarea_props()));
    let mut other = textarea_props();
    other.rows = 11;
    assert!(t.change(other));
    assert_eq!(t.props.rows, 11);
    let mut other = textarea_props();
    other.placeholder = "other".to_string();
    assert!(t.change(other));
    assert_eq!(t.props.placeholder, "other");
}

#[test]
fn textarea_events_emit_their_signal() {
    let mut t = FormTextArea::create(textarea_props());
    let e = t.update(form_textarea::Msg::Input);
    assert!(e.render);
    assert_eq!(e.emit, Some(form_textarea::Signal::OnInput));
    assert_eq!(t.update(form_textarea::Msg::Blur).emit, Some(form_textarea::Signal::OnBlur));
    assert_eq!(
        t.update(form_textarea::Msg::KeyPressed).emit,
        Some(form_textarea::Signal::OnKeyDown)
    );
}

#[test]
fn textarea_class_and_style() {
    let t = FormTextArea::create(textarea_props());
    assert_eq!(
        t.class_name("css-abc", "css-override"),
        "css-abc medium form-input-class-test css-override"
    );
    assert_eq!(t.class_name("css-abc", ""), "css-abc medium form-input-class-test");
    let a = t.style_from().to_css();
    let b = t.style_from().to_css();
    assert_eq!(a, b);
    assert!(a.contains("border: 1px solid #918d94;"));
    assert!(a.contains("&:focus { border-color: #827e85; } "));
    assert!(a.contains("&.underline:focus { border-bottom-color: #827e85; } "));
}

#[test]
fn textarea_style_ignores_size() {
    let small = FormTextArea::create(form_textarea::Props {
        textarea_size: Size::Small,
        ..textarea_props()
    });
    let big = FormTextArea::create(form_textarea::Props {
        textarea_size: Size::Big,
        class_name: "other".to_string(),
        ..textarea_props()
    });
    let a = small.style_from().to_css();
    assert_eq!(a, big.style_from().to_css());
    assert!(a.contains("height: 100px;"));
    assert_eq!(small.class_name("css-abc", ""), "css-abc small form-input-class-test");
}

#[test]
fn textarea_error_message() {
    let mut p = textarea_props();
    assert_eq!(FormTextArea::create(p.clone()).shown_error(), None);
    p.error_state = true;
    assert_eq!(FormTextArea::create(p).shown_error(), Some("invalid input".to_string()));
}

#[test]
fn textarea_defaults_and_wrap() {
    let p = form_textarea::Props::default();
    assert_eq!(p.maxlength, 1000);
    assert_eq!(p.wrap, WrapText::Soft);
    assert_eq!(p.textarea_size, Size::Medium);
    assert!(!p.error_state);
    assert_eq!(get_wrap(WrapText::Hard), "hard");
    assert_eq!(get_wrap(WrapText::Soft), "soft");
    assert_eq!(get_wrap(WrapText::Off), "off");
}
