use yew_styles::navbar::{menu_clicked, Fixed, Msg, Navbar, NavbarProps, Props};
use yew_styles::styles::{Palette, Style};
use yew_styles::utils::StyleRegistry;

fn props(palette: Palette, style: Style, class_name: &str, fixed: Fixed) -> Props {
    Props { navbar_type: palette, navbar_style: style, class_name: class_name.to_string(), fixed }
}

#[test]
fn navbar_props_default_to_a_standard_bar_pinned_on_top() {
    let props = Props::default();
    assert_eq!(props.navbar_type, Palette::Standard);
    assert_eq!(props.navbar_style, Style::Regular);
    assert_eq!(props.class_name, "");
    assert_eq!(props.fixed, Fixed::Top);
}

#[test]
fn navbar_props_hold_the_class_tokens() {
    let kept = NavbarProps::from(props(Palette::Danger, Style::Outline, "wide", Fixed::Bottom));
    assert_eq!(kept.navbar_type, "danger");
    assert_eq!(kept.navbar_style, "outline");
    assert_eq!(kept.class_name, "wide");
    assert_eq!(kept.fixed, Fixed::Bottom);
}

#[test]
fn navbar_props_are_the_same_when_derived_twice() {
    let once = NavbarProps::from(props(Palette::Info, Style::Light, "a b", Fixed::Inherit));
    let twice = NavbarProps::from(props(Palette::Info, Style::Light, "a b", Fixed::Inherit));
    assert!(once == twice);
    assert!(once == once.clone());
}

#[test]
fn navbar_props_differ_by_any_field() {
    let base = NavbarProps::from(props(Palette::Info, Style::Light, "a", Fixed::Top));
    assert!(base != NavbarProps::from(props(Palette::Link, Style::Light, "a", Fixed::Top)));
    assert!(base != NavbarProps::from(props(Palette::Info, Style::Regular, "a", Fixed::Top)));
    assert!(base != NavbarProps::from(props(Palette::Info, Style::Light, "b", Fixed::Top)));
    assert!(base != NavbarProps::from(props(Palette::Info, Style::Light, "a", Fixed::Bottom)));
}

#[test]
fn a_new_navbar_hides_its_menu() {
    let navbar = Navbar::create(Props::default());
    assert!(!navbar.display_menu);
    assert_eq!(navbar.props.navbar_type, "standard");
    assert_eq!(navbar.props.navbar_style, "regular");
    assert_eq!(navbar.props.class_name, "");
    assert_eq!(navbar.props.fixed, Fixed::Top);
}

#[test]
fn toggling_the_menu_twice_restores_it() {
    let mut navbar = Navbar::create(props(Palette::Primary, Style::Light, "x", Fixed::Bottom));
    let before = navbar.props.clone();
    assert!(navbar.update(Msg::TroggleMenu));
    assert!(navbar.display_menu);
    assert!(navbar.props == before);
    assert!(navbar.update(Msg::TroggleMenu));
    assert!(!navbar.display_menu);
    assert!(navbar.props == before);
}

#[test]
fn mounting_files_the_position_of_a_bar_on_top() {
    let mut navbar = Navbar::create(Props::default());
    let mut registry = StyleRegistry::new();
    assert!(navbar.mounted(&mut registry));
    assert_eq!(registry.get("navbar", "position"), Some("fixed".to_string()));
    assert_eq!(registry.get("navbar", "top"), Some("0".to_string()));
    assert_eq!(registry.get("navbar", "bottom"), None);
    assert_eq!(registry.entries().len(), 2);
    assert!(!navbar.display_menu);
    assert_eq!(navbar.props.fixed, Fixed::Top);
}

#[test]
fn mounting_files_the_position_of_a_bar_at_the_bottom() {
    let mut navbar = Navbar::create(props(Palette::Standard, Style::Regular, "", Fixed::Bottom));
    let mut registry = StyleRegistry::new();
    assert!(navbar.mounted(&mut registry));
    assert_eq!(registry.get("navbar", "position"), Some("fixed".to_string()));
    assert_eq!(registry.get("navbar", "bottom"), Some("0".to_string()));
    assert_eq!(registry.get("navbar", "top"), None);
}

#[test]
fn mounting_files_the_position_of_a_bar_that_is_not_pinned() {
    let mut navbar = Navbar::create(props(Palette::Standard, Style::Regular, "", Fixed::Inherit));
    let mut registry = StyleRegistry::new();
    assert!(navbar.mounted(&mut registry));
    assert_eq!(registry.get("navbar", "position"), Some("inherit".to_string()));
    assert_eq!(registry.get("navbar", "top"), None);
    assert_eq!(registry.get("navbar", "bottom"), None);
    assert_eq!(registry.entries().len(), 1);
}

#[test]
fn the_registry_ends_in_the_position_filed_last() {
    let mut registry = StyleRegistry::new();
    let mut top = Navbar::create(props(Palette::Standard, Style::Regular, "", Fixed::Top));
    let mut loose = Navbar::create(props(Palette::Standard, Style::Regular, "", Fixed::Inherit));
    top.mounted(&mut registry);
    loose.mounted(&mut registry);
    assert_eq!(registry.get("navbar", "position"), Some("inherit".to_string()));
    loose.mounted(&mut registry);
    top.mounted(&mut registry);
    assert_eq!(registry.get("navbar", "position"), Some("fixed".to_string()));
    assert_eq!(registry.get("navbar", "top"), Some("0".to_string()));
}

#[test]
fn navbar_change_with_an_equal_configuration_asks_for_no_rerender() {
    let mut navbar = Navbar::create(props(Palette::Primary, Style::Light, "wide", Fixed::Top));
    navbar.update(Msg::TroggleMenu);
    let mut registry = StyleRegistry::new();
    let rerender = navbar.change(props(Palette::Primary, Style::Light, "wide", Fixed::Top), &mut registry);
    assert!(!rerender);
    assert_eq!(navbar.props.navbar_type, "primary");
    assert_eq!(navbar.props.navbar_style, "light");
    assert_eq!(navbar.props.class_name, "wide");
    assert_eq!(navbar.props.fixed, Fixed::Top);
    assert!(navbar.display_menu);
}

#[test]
fn navbar_change_with_one_differing_field_adopts_it() {
    let variants = [
        props(Palette::Link, Style::Light, "wide", Fixed::Top),
        props(Palette::Primary, Style::Outline, "wide", Fixed::Top),
        props(Palette::Primary, Style::Light, "narrow", Fixed::Top),
        props(Palette::Primary, Style::Light, "wide", Fixed::Bottom),
    ];
    let expected = [
        ("link", "light", "wide", Fixed::Top),
        ("primary", "outline", "wide", Fixed::Top),
        ("primary", "light", "narrow", Fixed::Top),
        ("primary", "light", "wide", Fixed::Bottom),
    ];
    for (new, kept) in variants.into_iter().zip(expected) {
        let mut navbar = Navbar::create(props(Palette::Primary, Style::Light, "wide", Fixed::Top));
        let mut registry = StyleRegistry::new();
        assert!(navbar.change(new, &mut registry));
        assert_eq!(navbar.props.navbar_type, kept.0);
        assert_eq!(navbar.props.navbar_style, kept.1);
        assert_eq!(navbar.props.class_name, kept.2);
        assert_eq!(navbar.props.fixed, kept.3);
        assert!(!navbar.display_menu);
    }
}

#[test]
fn navbar_change_files_the_position_it_adopts() {
    let mut navbar = Navbar::create(props(Palette::Standard, Style::Regular, "", Fixed::Inherit));
    let mut registry = StyleRegistry::new();
    assert!(navbar.change(props(Palette::Standard, Style::Regular, "", Fixed::Top), &mut registry));
    assert_eq!(navbar.props.fixed, Fixed::Top);
    assert_eq!(registry.get("navbar", "position"), Some("fixed".to_string()));
    assert_eq!(registry.get("navbar", "top"), Some("0".to_string()));
    assert_eq!(registry.get("navbar", "bottom"), None);

    assert!(navbar.change(props(Palette::Standard, Style::Regular, "", Fixed::Bottom), &mut registry));
    assert_eq!(navbar.props.fixed, Fixed::Bottom);
    assert_eq!(registry.get("navbar", "position"), Some("fixed".to_string()));
    assert_eq!(registry.get("navbar", "bottom"), Some("0".to_string()));

    assert!(navbar.change(props(Palette::Standard, Style::Regular, "", Fixed::Inherit), &mut registry));
    assert_eq!(navbar.props.fixed, Fixed::Inherit);
    assert_eq!(registry.get("navbar", "position"), Some("inherit".to_string()));
}

#[test]
fn navbar_change_with_an_equal_configuration_files_its_position_again() {
    let mut navbar = Navbar::create(props(Palette::Standard, Style::Regular, "", Fixed::Top));
    let mut registry = StyleRegistry::new();
    registry.create_style("position".to_string(), "inherit".to_string(), "navbar".to_string());
    assert!(!navbar.change(props(Palette::Standard, Style::Regular, "", Fixed::Top), &mut registry));
    assert_eq!(registry.get("navbar", "position"), Some("fixed".to_string()));
    assert_eq!(registry.get("navbar", "top"), Some("0".to_string()));
    assert_eq!(registry.entries().len(), 2);
}

#[test]
fn navbar_change_files_the_new_position_whatever_else_differs() {
    let mut navbar = Navbar::create(props(Palette::Primary, Style::Light, "wide", Fixed::Top));
    let mut registry = StyleRegistry::new();
    navbar.mounted(&mut registry);
    assert!(navbar.change(props(Palette::Danger, Style::Light, "wide", Fixed::Inherit), &mut registry));
    assert_eq!(navbar.props.navbar_type, "danger");
    assert_eq!(registry.get("navbar", "position"), Some("inherit".to_string()));
}

#[test]
fn a_click_on_the_menu_control_toggles_the_menu() {
    assert_eq!(menu_clicked(), Msg::TroggleMenu);
    let mut navbar = Navbar::create(Props::default());
    assert!(navbar.update(menu_clicked()));
    assert!(navbar.display_menu);
}

#[test]
fn navbar_view_derives_both_class_lines() {
    let mut navbar = Navbar::create(props(Palette::Success, Style::Outline, "wide dark", Fixed::Top));
    let shown = navbar.view();
    assert_eq!(shown.mobile_class, "navbar-mobile outline success wide dark");
    assert_eq!(shown.class, "navbar outline success wide dark");
    assert!(!shown.display_menu);
    navbar.update(Msg::TroggleMenu);
    let shown = navbar.view();
    assert!(shown.display_menu);
    assert_eq!(shown.class, "navbar outline success wide dark");
}

#[test]
fn navbar_view_of_the_default_configuration() {
    let navbar = Navbar::create(Props::default());
    let shown = navbar.view();
    assert_eq!(shown.mobile_class, "navbar-mobile regular standard ");
    assert_eq!(shown.class, "navbar regular standard ");
}

#[test]
fn navbar_view_is_the_same_when_asked_twice() {
    let navbar = Navbar::create(props(Palette::Info, Style::Light, "x", Fixed::Bottom));
    assert_eq!(navbar.view(), navbar.view());
    let other = Navbar::create(props(Palette::Info, Style::Light, "x", Fixed::Bottom));
    assert_eq!(navbar.view(), other.view());
}
