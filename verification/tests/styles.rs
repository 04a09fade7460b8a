use yew_styles::styles::{get_palette, get_size, get_style, push_class, Palette, Size, Style};

#[test]
fn palette_tokens() {
    let expected = [
        (Palette::Standard, "standard"),
        (Palette::Primary, "primary"),
        (Palette::Secondary, "secondary"),
        (Palette::Success, "success"),
        (Palette::Info, "info"),
        (Palette::Link, "link"),
        (Palette::Warning, "warning"),
        (Palette::Danger, "danger"),
        (Palette::Clean, "clean"),
    ];
    for (palette, token) in expected {
        assert_eq!(get_palette(palette), token);
    }
}

#[test]
fn style_tokens() {
    assert_eq!(get_style(Style::Regular), "regular");
    assert_eq!(get_style(Style::Light), "light");
    assert_eq!(get_style(Style::Outline), "outline");
}

#[test]
fn size_tokens() {
    assert_eq!(get_size(Size::Small), "small");
    assert_eq!(get_size(Size::Medium), "medium");
    assert_eq!(get_size(Size::Big), "big");
}

#[test]
fn tokens_are_the_same_when_derived_twice() {
    assert_eq!(get_palette(Palette::Info), get_palette(Palette::Info));
    assert_eq!(get_style(Style::Light), get_style(Style::Light));
    assert_eq!(get_size(Size::Big), get_size(Size::Big));
}

#[test]
fn push_class_appends_after_a_space() {
    let mut line = String::from("navbar");
    push_class(&mut line, "regular");
    assert_eq!(line, "navbar regular");
    push_class(&mut line, "");
    assert_eq!(line, "navbar regular ");
    push_class(&mut line, "wide");
    assert_eq!(line, "navbar regular  wide");
}
