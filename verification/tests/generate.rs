use material_colors::color::Argb;
use material_colors::dynamic_color::Variant as Style;
use material_colors::image::{FilterType, ImageReader};
use material_colors::theme::ThemeBuilder;
use material_theme::color::Rgb;
use material_theme::error::ThemeError;
use material_theme::generate::{generate, generate_theme, serialize_theme, settle_serialization};
use material_theme::roles::{ROLE_COUNT, ROLE_TABLE};
use material_theme::run::{render_outputs, run, THEME_FILE};
use material_theme::templates::{theme_to_css, theme_to_waybar_css};
use material_theme::theme::{Scheme, Theme};
use material_theme::variant::Variant;

fn pairs() -> Vec<(Variant, Style)> {
    vec![
        (Variant::Content, Style::Content),
        (Variant::Expressive, Style::Expressive),
        (Variant::Monochrome, Style::Monochrome),
        (Variant::Neutral, Style::Neutral),
        (Variant::TonalSpot, Style::TonalSpot),
        (Variant::Vibrant, Style::Vibrant),
        (Variant::Fidelity, Style::Fidelity),
        (Variant::FruitSalad, Style::FruitSalad),
        (Variant::Rainbow, Style::Rainbow),
    ]
}

fn same_colors(scheme: &Scheme, expected: material_colors::scheme::Scheme) {
    let mut count = 0;
    for (name, color) in expected {
        assert_eq!(scheme.get(&name), Some(Rgb::new(color.red, color.green, color.blue)), "{}", name);
        count += 1;
    }
    assert_eq!(count, ROLE_COUNT);
}

#[test]
fn generated_theme_keeps_its_source() {
    let source = Rgb::new(0x67, 0x50, 0xA4);
    let theme = generate_theme(source, Variant::TonalSpot);
    assert_eq!(theme.source, source);
}

#[test]
fn generated_schemes_cover_the_role_table() {
    for (variant, _) in pairs() {
        let theme = generate_theme(Rgb::new(0x67, 0x50, 0xA4), variant);
        for name in ROLE_TABLE {
            assert!(theme.light.get(name).is_some(), "{}", name);
            assert!(theme.dark.get(name).is_some(), "{}", name);
        }
        assert!(theme.dark.get("not_a_role").is_none());
    }
}

#[test]
fn generated_red_theme_has_the_known_dark_colors() {
    let theme = generate_theme(Rgb::new(255, 0, 0), Variant::TonalSpot);
    assert_eq!(theme.dark.get("primary"), Some(Rgb::new(255, 180, 168)));
    assert_eq!(theme.dark.get("on_primary"), Some(Rgb::new(86, 30, 22)));
    assert_eq!(theme.dark.get("primary_container"), Some(Rgb::new(115, 52, 42)));
    assert_eq!(theme.dark.get("secondary"), Some(Rgb::new(231, 189, 182)));
    assert_eq!(theme.dark.get("tertiary"), Some(Rgb::new(222, 196, 140)));
    assert_eq!(theme.dark.get("error"), Some(Rgb::new(255, 180, 171)));
    assert_eq!(theme.dark.get("surface"), Some(Rgb::new(26, 17, 16)));
    assert_eq!(theme.dark.get("outline"), Some(Rgb::new(160, 140, 137)));
    assert_eq!(theme.dark.get("surface_container_highest"), Some(Rgb::new(61, 50, 48)));
}

#[test]
fn generated_theme_is_what_the_builder_builds() {
    for source in [Rgb::new(255, 0, 0), Rgb::new(0x67, 0x50, 0xA4), Rgb::new(0, 0, 0), Rgb::new(12, 200, 99)] {
        for (variant, style) in pairs() {
            let theme = generate_theme(source, variant);
            let built = ThemeBuilder::with_source(Argb::new(255, source.red, source.green, source.blue))
                .variant(style)
                .build();
            same_colors(&theme.light, built.schemes.light);
            same_colors(&theme.dark, built.schemes.dark);
        }
    }
}

#[test]
fn variants_differ() {
    let source = Rgb::new(0x67, 0x50, 0xA4);
    let spot = generate_theme(source, Variant::TonalSpot);
    let vibrant = generate_theme(source, Variant::Vibrant);
    let mono = generate_theme(source, Variant::Monochrome);
    assert_ne!(spot.dark.get("primary"), vibrant.dark.get("primary"));
    assert_ne!(spot.dark.get("primary"), mono.dark.get("primary"));
    assert_ne!(spot.dark.get("primary"), spot.light.get("primary"));
}

#[test]
fn outputs_go_under_the_output_directory() {
    let theme = generate_theme(Rgb::new(0x67, 0x50, 0xA4), Variant::TonalSpot);
    let outputs =
        render_outputs(&theme, "{}".to_string(), "/home/alice/.config", true).unwrap();
    assert_eq!(outputs.theme_json.path, "theme.json");
    assert_eq!(outputs.theme_json.contents, "{}");
    assert_eq!(
        outputs.style_sheet.path,
        "/home/alice/.config/vesktop/themes/Actual Material design colors/colors.css"
    );
    assert_eq!(outputs.status_bar.path, "/home/alice/.config/waybar/colors.css");
    assert_eq!(outputs.style_sheet.contents, theme_to_css(&theme, true).unwrap());
    assert_eq!(outputs.status_bar.contents, theme_to_waybar_css(&theme, true).unwrap());
    let light = render_outputs(&theme, String::new(), "", false).unwrap();
    assert_eq!(light.theme_json.contents, "");
    assert_eq!(light.status_bar.path, "/waybar/colors.css");
    assert_eq!(light.status_bar.contents, theme_to_waybar_css(&theme, false).unwrap());
    assert_eq!(THEME_FILE, "theme.json");
}

#[test]
fn outputs_fail_where_a_role_is_missing() {
    let theme = Theme::new(Rgb::new(1, 2, 3), Scheme::new(), Scheme::new());
    assert_eq!(
        render_outputs(&theme, "{}".to_string(), "/tmp", true).err(),
        Some(ThemeError::MissingRole(0))
    );
}

#[test]
fn serialized_theme_is_what_serde_json_writes() {
    for source in [Rgb::new(255, 0, 0), Rgb::new(0x67, 0x50, 0xA4)] {
        for (variant, style) in pairs() {
            let built = ThemeBuilder::with_source(Argb::new(255, source.red, source.green, source.blue))
                .variant(style)
                .build();
            let expected = serde_json::to_string_pretty(&built).unwrap();
            assert_eq!(serialize_theme(source, variant), Ok(expected));
        }
    }
}

#[test]
fn serializer_error_is_a_generation_failure() {
    let error = serde_json::from_str::<u8>("not json").unwrap_err();
    assert_eq!(settle_serialization(Err(error)), Err(ThemeError::GenerationFailure));
    assert_eq!(ThemeError::GenerationFailure.message(), "failed to generate the theme");
}

#[test]
fn serialized_text_is_handed_on_unchanged() {
    let text = "{\n  \"a\": 1\n}".to_string();
    assert_eq!(settle_serialization(Ok(text.clone())), Ok(text));
    assert_eq!(settle_serialization(Ok("{}".to_string())), Ok("{}".to_string()));
    assert_eq!(settle_serialization(Ok(" ".to_string())), Ok(" ".to_string()));
}

#[test]
fn empty_serialized_text_is_a_generation_failure() {
    assert_eq!(settle_serialization(Ok(String::new())), Err(ThemeError::GenerationFailure));
}

#[test]
fn serialized_theme_is_never_empty() {
    for (variant, _) in pairs() {
        let text = serialize_theme(Rgb::new(0, 0, 0), variant).unwrap();
        assert!(text.len() > 2);
        assert!(text.starts_with('{'));
        assert!(text.ends_with('}'));
    }
}

#[test]
fn theme_and_serialized_text_are_of_one_theme() {
    for source in [Rgb::new(255, 0, 0), Rgb::new(0x67, 0x50, 0xA4), Rgb::new(12, 200, 99)] {
        for (variant, _) in pairs() {
            let generated = generate(source, variant);
            assert_eq!(generated.theme.source, source);
            let text = generated.serialized.unwrap();
            let value: serde_json::Value = serde_json::from_str(&text).unwrap();
            assert_eq!(value["source"]["red"], source.red);
            assert_eq!(value["source"]["green"], source.green);
            assert_eq!(value["source"]["blue"], source.blue);
            for (mode, scheme) in [("light", &generated.theme.light), ("dark", &generated.theme.dark)] {
                for name in ROLE_TABLE {
                    let color = scheme.get(name).unwrap();
                    assert_eq!(value["schemes"][mode][name]["red"], color.red, "{} {}", mode, name);
                    assert_eq!(value["schemes"][mode][name]["green"], color.green, "{} {}", mode, name);
                    assert_eq!(value["schemes"][mode][name]["blue"], color.blue, "{} {}", mode, name);
                }
            }
            assert_eq!(Ok(text), serialize_theme(source, variant));
        }
    }
}

#[test]
fn serialized_theme_holds_source_and_schemes() {
    let text = serialize_theme(Rgb::new(255, 0, 0), Variant::TonalSpot).unwrap();
    let value: serde_json::Value = serde_json::from_str(&text).unwrap();
    assert_eq!(value["source"]["red"], 255);
    assert_eq!(value["source"]["green"], 0);
    assert_eq!(value["source"]["blue"], 0);
    assert_eq!(value["schemes"]["dark"]["primary"]["red"], 255);
    assert_eq!(value["schemes"]["dark"]["primary"]["green"], 180);
    assert_eq!(value["schemes"]["dark"]["primary"]["blue"], 168);
    assert!(value["schemes"]["light"]["scrim"].is_object());
    assert!(value["palettes"].is_object());
    assert!(text.contains('\n'));
}

#[test]
fn run_renders_the_generated_theme() {
    let source = Rgb::new(0x67, 0x50, 0xA4);
    let outputs = run(source, "/cfg", true, Variant::Vibrant).unwrap();
    assert_eq!(outputs.theme_json.path, THEME_FILE);
    assert_eq!(Ok(outputs.theme_json.contents), serialize_theme(source, Variant::Vibrant));
    let theme = generate_theme(source, Variant::Vibrant);
    assert_eq!(outputs.style_sheet.contents, theme_to_css(&theme, true).unwrap());
    assert_eq!(outputs.status_bar.contents, theme_to_waybar_css(&theme, true).unwrap());
    assert_eq!(outputs.status_bar.path, "/cfg/waybar/colors.css");
    assert!(outputs.style_sheet.contents.starts_with("# Source: #6750A4\n:root {\n  --primary: #"));
    let light = run(source, "/cfg", false, Variant::Vibrant).unwrap();
    assert_eq!(light.style_sheet.contents, theme_to_css(&theme, false).unwrap());
    assert_ne!(light.style_sheet.contents, outputs.style_sheet.contents);
}

/// A solid image of one colour, as a binary portable pixmap.
fn solid_pixmap(width: usize, height: usize, color: [u8; 3]) -> Vec<u8> {
    let mut bytes = format!("P6\n{} {}\n255\n", width, height).into_bytes();
    for _ in 0..width * height {
        bytes.extend_from_slice(&color);
    }
    bytes
}

#[test]
fn solid_purple_image_end_to_end() {
    let mut image = ImageReader::read(solid_pixmap(64, 64, [128, 0, 128])).unwrap();
    image.resize(128, 128, FilterType::Triangle);
    let seed = ImageReader::extract_color(&image);
    println!("seed: {} {} {}", seed.red, seed.green, seed.blue);
    assert!(seed.red.abs_diff(128) <= 8);
    assert!(seed.green <= 8);
    assert!(seed.blue.abs_diff(128) <= 8);

    let source = Rgb::new(seed.red, seed.green, seed.blue);
    let outputs = run(source, "/home/alice/.config", true, Variant::TonalSpot).unwrap();
    let sheet = outputs.style_sheet.contents;
    let palette = outputs.status_bar.contents;
    assert!(!outputs.theme_json.contents.is_empty());
    assert_eq!(outputs.theme_json.path, "theme.json");
    assert_eq!(sheet.lines().next(), Some(format!("# Source: {}", source.to_hex()).as_str()));
    assert_eq!(sheet.lines().filter(|line| line.starts_with("  --")).count(), ROLE_COUNT);
    assert_eq!(palette.lines().filter(|line| line.starts_with("@define-color ")).count(), ROLE_COUNT);
    assert_eq!(palette.lines().count(), ROLE_COUNT);

    let built = ThemeBuilder::with_source(seed).build();
    let primary = built.schemes.dark.primary;
    let line = format!("@define-color primary #{:02X}{:02X}{:02X};", primary.red, primary.green, primary.blue);
    assert_eq!(palette.lines().next(), Some(line.as_str()));
    assert!(primary.red > primary.green && primary.blue > primary.green);
}
