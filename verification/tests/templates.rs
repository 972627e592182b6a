use material_theme::color::Rgb;
use material_theme::error::ThemeError;
use material_theme::roles::{role_name, ROLE_COUNT, ROLE_TABLE};
use material_theme::templates::{render, theme_to_css, theme_to_waybar_css, Format};
use material_theme::theme::{Scheme, Theme};

/// The colour that the sample schemes give to the role at `index`.
fn sample_color(index: usize, shift: u8) -> Rgb {
    let i = index as u8;
    Rgb::new(i.wrapping_mul(5).wrapping_add(shift), 255 - i, i.wrapping_mul(3))
}

/// A scheme with every role of the table, `primary` set to `primary`.
fn full_scheme(primary: Rgb, shift: u8) -> Scheme {
    let mut scheme = Scheme::new();
    for index in 0..ROLE_COUNT {
        scheme.insert(role_name(index), sample_color(index, shift));
    }
    scheme.insert("primary", primary);
    scheme
}

/// The same scheme as `full_scheme`, its entries made in the opposite order.
fn full_scheme_reversed(primary: Rgb, shift: u8) -> Scheme {
    let mut scheme = Scheme::new();
    scheme.insert("primary", primary);
    for index in (1..ROLE_COUNT).rev() {
        scheme.insert(role_name(index), sample_color(index, shift));
    }
    scheme
}

fn sample_theme() -> Theme {
    Theme::new(
        Rgb::new(0x67, 0x50, 0xA4),
        full_scheme(Rgb::new(0x65, 0x55, 0x8F), 7),
        full_scheme(Rgb::new(0xD0, 0xBC, 0xFF), 0),
    )
}

fn hex(color: Rgb) -> String {
    format!("#{:02X}{:02X}{:02X}", color.red, color.green, color.blue)
}

#[test]
fn style_sheet_opens_with_source_and_holds_primary() {
    let text = theme_to_css(&sample_theme(), true).unwrap();
    let lines: Vec<&str> = text.split('\n').collect();
    assert_eq!(lines[0], "# Source: #6750A4");
    assert_eq!(lines[1], ":root {");
    assert_eq!(lines[2], "  --primary: #D0BCFF;");
    assert_eq!(lines.iter().filter(|line| **line == "  --primary: #D0BCFF;").count(), 1);
    assert_eq!(lines.len(), ROLE_COUNT + 3);
    assert_eq!(lines[ROLE_COUNT + 2], "}");
    assert!(text.ends_with(";\n}"));
}

#[test]
fn style_sheet_is_the_same_on_every_render() {
    let theme = sample_theme();
    let first = theme_to_css(&theme, true).unwrap();
    let second = theme_to_css(&theme, true).unwrap();
    assert_eq!(first, second);
    let rebuilt = theme_to_css(&sample_theme(), true).unwrap();
    assert_eq!(first, rebuilt);
}

#[test]
fn style_sheet_whole_document() {
    let theme = sample_theme();
    let mut expected = String::from("# Source: #6750A4\n:root {\n");
    expected += "  --primary: #D0BCFF;\n";
    for index in 1..ROLE_COUNT {
        expected += &format!("  --{}: {};\n", ROLE_TABLE[index], hex(sample_color(index, 0)));
    }
    expected += "}";
    assert_eq!(theme_to_css(&theme, true).unwrap(), expected);
}

#[test]
fn status_bar_holds_primary_and_nothing_around_the_lines() {
    let text = theme_to_waybar_css(&sample_theme(), true).unwrap();
    let lines: Vec<&str> = text.split('\n').collect();
    assert_eq!(lines[0], "@define-color primary #D0BCFF;");
    assert_eq!(lines.iter().filter(|line| **line == "@define-color primary #D0BCFF;").count(), 1);
    assert_eq!(lines.len(), ROLE_COUNT + 1);
    assert_eq!(lines[ROLE_COUNT], "");
    assert!(!text.contains(":root"));
    assert!(!text.contains("# Source"));
    assert!(!text.contains('{'));
    assert!(!text.contains('}'));
    for line in &lines[..ROLE_COUNT] {
        assert!(line.starts_with("@define-color "));
        assert!(line.ends_with(';'));
    }
}

#[test]
fn status_bar_whole_document() {
    let theme = sample_theme();
    let mut expected = String::from("@define-color primary #65558F;\n");
    for index in 1..ROLE_COUNT {
        expected += &format!("@define-color {} {};\n", ROLE_TABLE[index], hex(sample_color(index, 7)));
    }
    assert_eq!(theme_to_waybar_css(&theme, false).unwrap(), expected);
}

#[test]
fn is_dark_selects_the_scheme() {
    let theme = sample_theme();
    let dark = theme_to_css(&theme, true).unwrap();
    let light = theme_to_css(&theme, false).unwrap();
    assert!(dark.contains("  --primary: #D0BCFF;\n"));
    assert!(!dark.contains("  --primary: #65558F;\n"));
    assert!(light.contains("  --primary: #65558F;\n"));
    assert!(!light.contains("  --primary: #D0BCFF;\n"));
    assert!(light.starts_with("# Source: #6750A4\n"));
}

#[test]
fn lines_follow_the_table_not_the_entries() {
    let primary = Rgb::new(0xD0, 0xBC, 0xFF);
    let source = Rgb::new(0x67, 0x50, 0xA4);
    let forward = Theme::new(source, full_scheme(primary, 7), full_scheme(primary, 0));
    let backward =
        Theme::new(source, full_scheme_reversed(primary, 7), full_scheme_reversed(primary, 0));
    assert_eq!(theme_to_css(&forward, true).unwrap(), theme_to_css(&backward, true).unwrap());
    assert_eq!(
        theme_to_waybar_css(&forward, false).unwrap(),
        theme_to_waybar_css(&backward, false).unwrap()
    );
    let text = theme_to_waybar_css(&backward, true).unwrap();
    let lines: Vec<&str> = text.split('\n').collect();
    for index in 0..ROLE_COUNT {
        assert!(lines[index].starts_with(&format!("@define-color {} #", ROLE_TABLE[index])));
    }
}

#[test]
fn missing_role_is_an_error() {
    let mut dark = Scheme::new();
    for index in 0..ROLE_COUNT {
        if role_name(index) != "tertiary" {
            dark.insert(role_name(index), sample_color(index, 0));
        }
    }
    let theme = Theme::new(Rgb::new(1, 2, 3), full_scheme(Rgb::new(9, 9, 9), 0), dark);
    assert_eq!(ROLE_TABLE[17], "tertiary");
    assert_eq!(theme_to_css(&theme, true), Err(ThemeError::MissingRole(17)));
    assert_eq!(theme_to_waybar_css(&theme, true), Err(ThemeError::MissingRole(17)));
    assert!(theme_to_css(&theme, false).is_ok());
    assert!(theme_to_waybar_css(&theme, false).is_ok());
}

#[test]
fn first_missing_role_is_reported() {
    let mut light = Scheme::new();
    for index in 0..ROLE_COUNT {
        if index != 3 && index != 30 && index != 48 {
            light.insert(role_name(index), sample_color(index, 0));
        }
    }
    let theme = Theme::new(Rgb::new(1, 2, 3), light, Scheme::new());
    assert_eq!(render(Format::StyleSheet, &theme, false), Err(ThemeError::MissingRole(3)));
    assert_eq!(render(Format::StatusBar, &theme, true), Err(ThemeError::MissingRole(0)));
}

#[test]
fn entries_beyond_the_table_are_not_rendered() {
    let mut dark = full_scheme(Rgb::new(0xD0, 0xBC, 0xFF), 0);
    dark.insert("not_a_role", Rgb::new(1, 1, 1));
    let theme = Theme::new(Rgb::new(0x67, 0x50, 0xA4), Scheme::new(), dark);
    let text = theme_to_waybar_css(&theme, true).unwrap();
    assert!(!text.contains("not_a_role"));
    assert_eq!(text, theme_to_waybar_css(&sample_theme(), true).unwrap());
}

#[test]
fn render_agrees_with_the_named_renderers() {
    let theme = sample_theme();
    assert_eq!(render(Format::StyleSheet, &theme, true), theme_to_css(&theme, true));
    assert_eq!(render(Format::StatusBar, &theme, false), theme_to_waybar_css(&theme, false));
}
