use dla_sim::color::ColorScheme;
use dla_sim::theme::{parse_theme, BackgroundMode, Rgb, ThemeId};
use dla_sim::ui::{
    centered, focus_scroll, get_canvas_size, get_controls_visible_lines, get_help_visible_lines,
    least, list_popup_size, minus, most, progress_bar, sidebar_heights, Area, ViewMode,
};

const SCHEMES: [ColorScheme; 16] = [
    ColorScheme::Ice,
    ColorScheme::Fire,
    ColorScheme::Plasma,
    ColorScheme::Viridis,
    ColorScheme::Rainbow,
    ColorScheme::Grayscale,
    ColorScheme::Ocean,
    ColorScheme::Neon,
    ColorScheme::Lagoon,
    ColorScheme::Violet,
    ColorScheme::Harvest,
    ColorScheme::Midnight,
    ColorScheme::Frost,
    ColorScheme::Sunset,
    ColorScheme::Matrix,
    ColorScheme::Amber,
];

const THEMES: [ThemeId; 12] = [
    ThemeId::Default,
    ThemeId::Lagoon,
    ThemeId::Bluemono,
    ThemeId::Violet,
    ThemeId::Harvest,
    ThemeId::Midnight,
    ThemeId::Rainbow,
    ThemeId::Frost,
    ThemeId::DeepSpace,
    ThemeId::Sunset,
    ThemeId::Matrix,
    ThemeId::Amber,
];

#[test]
fn color_schemes_cycle_in_order() {
    for (i, scheme) in SCHEMES.iter().enumerate() {
        assert_eq!(scheme.next(), SCHEMES[(i + 1) % 16]);
        assert_eq!(scheme.prev(), SCHEMES[(i + 15) % 16]);
        assert_eq!(scheme.next().prev(), *scheme);
    }
}

#[test]
fn color_schemes_have_their_names() {
    let names: Vec<&str> = SCHEMES.iter().map(|s| s.name()).collect();
    assert_eq!(
        names,
        vec![
            "Ice", "Fire", "Plasma", "Viridis", "Rainbow", "Grayscale", "Ocean", "Neon",
            "Lagoon", "Violet", "Harvest", "Midnight", "Frost", "Sunset", "Matrix", "Amber"
        ]
    );
}

#[test]
fn themes_cycle_in_order() {
    for (i, theme) in THEMES.iter().enumerate() {
        assert_eq!(theme.next(), THEMES[(i + 1) % 12]);
        assert_eq!(theme.prev(), THEMES[(i + 11) % 12]);
    }
    assert_eq!(ThemeId::Amber.next(), ThemeId::Default);
    assert_eq!(ThemeId::Default.prev(), ThemeId::Amber);
}

#[test]
fn themes_have_their_names() {
    let names: Vec<&str> = THEMES.iter().map(|t| t.name()).collect();
    assert_eq!(
        names,
        vec![
            "Default", "Lagoon", "Bluemono", "Violet", "Harvest", "Midnight", "Rainbow",
            "Frost", "Deep Space", "Sunset", "Matrix", "Amber"
        ]
    );
    for theme in THEMES {
        assert_eq!(theme.theme().name, theme.name());
    }
}

#[test]
fn theme_names_are_parsed_whatever_their_case_and_separators() {
    assert_eq!(parse_theme("default"), ThemeId::Default);
    assert_eq!(parse_theme("lagoon"), ThemeId::Lagoon);
    assert_eq!(parse_theme("Blue_Mono"), ThemeId::Bluemono);
    assert_eq!(parse_theme("VIOLET"), ThemeId::Violet);
    assert_eq!(parse_theme("har-vest"), ThemeId::Harvest);
    assert_eq!(parse_theme(" midnight "), ThemeId::Midnight);
    assert_eq!(parse_theme("Rainbow"), ThemeId::Rainbow);
    assert_eq!(parse_theme("frost"), ThemeId::Frost);
    assert_eq!(parse_theme("Deep Space"), ThemeId::DeepSpace);
    assert_eq!(parse_theme("deep-space"), ThemeId::DeepSpace);
    assert_eq!(parse_theme("SPACE"), ThemeId::DeepSpace);
    assert_eq!(parse_theme("sunset"), ThemeId::Sunset);
    assert_eq!(parse_theme("matrix"), ThemeId::Matrix);
    assert_eq!(parse_theme("Amber"), ThemeId::Amber);
    for theme in THEMES {
        assert_eq!(parse_theme(theme.name()), theme);
    }
}

#[test]
fn unknown_theme_names_give_the_default() {
    assert_eq!(parse_theme(""), ThemeId::Default);
    assert_eq!(parse_theme("nope"), ThemeId::Default);
    assert_eq!(parse_theme("lagoons"), ThemeId::Default);
    assert_eq!(parse_theme("lagoo"), ThemeId::Default);
    assert_eq!(parse_theme("deep.space"), ThemeId::Default);
    assert_eq!(parse_theme("ämber"), ThemeId::Default);
    assert_eq!(parse_theme("- _"), ThemeId::Default);
}

#[test]
fn themes_carry_their_colours() {
    let t = ThemeId::Default.theme();
    assert_eq!(t.color_scheme, ColorScheme::Neon);
    assert_eq!(t.border_color, Rgb { r: 0, g: 255, b: 255 });
    assert_eq!(t.highlight_color, Rgb { r: 255, g: 255, b: 0 });
    assert_eq!(t.text_color, Rgb { r: 255, g: 255, b: 255 });
    assert_eq!(t.dim_text_color, Rgb { r: 160, g: 160, b: 160 });
    assert_eq!(t.particle_color, Rgb { r: 0, g: 255, b: 255 });
    assert_eq!(t.background, BackgroundMode::Solid(8, 8, 12));
    let t = ThemeId::Bluemono.theme();
    assert_eq!(t.color_scheme, ColorScheme::Ocean);
    assert_eq!(t.particle_color, Rgb { r: 30, g: 85, b: 130 });
    assert_eq!(t.background, BackgroundMode::Solid(252, 246, 248));
    let t = ThemeId::Rainbow.theme();
    assert_eq!(t.color_scheme, ColorScheme::Plasma);
    assert_eq!(t.border_color, Rgb { r: 137, g: 180, b: 250 });
    let t = ThemeId::Amber.theme();
    assert_eq!(t.color_scheme, ColorScheme::Amber);
    assert_eq!(t.dim_text_color, Rgb { r: 180, g: 120, b: 50 });
    assert_eq!(t.background, BackgroundMode::Solid(26, 26, 10));
    assert_eq!(ThemeId::DeepSpace.theme().color_scheme, ColorScheme::Neon);
    assert_eq!(ThemeId::Matrix.theme().text_color, Rgb { r: 0, g: 255, b: 65 });
}

#[test]
fn small_helpers() {
    assert_eq!(minus(5, 3), 2);
    assert_eq!(minus(3, 5), 0);
    assert_eq!(least(3, 5), 3);
    assert_eq!(most(3, 5), 5);
}

#[test]
fn canvas_size_leaves_room_for_borders_and_panels() {
    let frame = Area { x: 0, y: 0, width: 80, height: 24 };
    assert_eq!(get_canvas_size(frame, ViewMode::Fullscreen), (78, 22));
    assert_eq!(get_canvas_size(frame, ViewMode::Default), (56, 22));
    assert_eq!(get_canvas_size(frame, ViewMode::States), (30, 22));
    let tiny = Area { x: 0, y: 0, width: 10, height: 1 };
    assert_eq!(get_canvas_size(tiny, ViewMode::Default), (0, 0));
    assert_eq!(get_canvas_size(tiny, ViewMode::Fullscreen), (8, 0));
}

#[test]
fn views_cycle() {
    assert_eq!(ViewMode::Default.next(), ViewMode::States);
    assert_eq!(ViewMode::States.next(), ViewMode::Fullscreen);
    assert_eq!(ViewMode::Fullscreen.next(), ViewMode::Default);
}

#[test]
fn help_lines_follow_the_terminal_height() {
    assert_eq!(get_help_visible_lines(50), 38);
    assert_eq!(get_help_visible_lines(44), 38);
    assert_eq!(get_help_visible_lines(43), 37);
    assert_eq!(get_help_visible_lines(10), 4);
    assert_eq!(get_help_visible_lines(6), 0);
    assert_eq!(get_help_visible_lines(0), 0);
}

#[test]
fn controls_lines_follow_the_terminal_height() {
    assert_eq!(get_controls_visible_lines(100), 30);
    assert_eq!(get_controls_visible_lines(50), 13);
    assert_eq!(get_controls_visible_lines(41), 4);
    assert_eq!(get_controls_visible_lines(20), 4);
    assert_eq!(get_controls_visible_lines(12), 1);
    assert_eq!(get_controls_visible_lines(9), 0);
    assert_eq!(get_controls_visible_lines(0), 0);
}

#[test]
fn sidebar_heights_share_the_room() {
    assert_eq!(sidebar_heights(50), (26, 15));
    assert_eq!(sidebar_heights(100), (59, 32));
    assert_eq!(sidebar_heights(20), (5, 6));
    assert_eq!(sidebar_heights(12), (4, 3));
    assert_eq!(sidebar_heights(41), (26, 6));
    assert_eq!(sidebar_heights(40), (25, 6));
}

#[test]
fn lists_scroll_to_keep_the_focus_in_view() {
    assert_eq!(focus_scroll(20, 10, 31), 11);
    assert_eq!(focus_scroll(10, 10, 31), 1);
    assert_eq!(focus_scroll(9, 10, 31), 0);
    assert_eq!(focus_scroll(20, 0, 31), 0);
    assert_eq!(focus_scroll(20, 31, 31), 0);
    assert_eq!(focus_scroll(20, 40, 31), 0);
}

#[test]
fn popups_are_centred() {
    let area = Area { x: 0, y: 0, width: 80, height: 24 };
    assert_eq!(centered(area, 44, 5), Area { x: 18, y: 9, width: 44, height: 5 });
    let offset = Area { x: 22, y: 3, width: 58, height: 21 };
    assert_eq!(centered(offset, 56, 17), Area { x: 23, y: 5, width: 56, height: 17 });
    assert_eq!(centered(offset, 90, 30), Area { x: 22, y: 3, width: 90, height: 30 });
}

#[test]
fn list_popups_fit_their_entries() {
    let area = Area { x: 0, y: 0, width: 80, height: 24 };
    assert_eq!(list_popup_size(area, 10, 5), (20, 7));
    assert_eq!(list_popup_size(area, 30, 40), (36, 20));
    assert_eq!(list_popup_size(area, 200, 1), (76, 3));
    let tiny = Area { x: 0, y: 0, width: 10, height: 5 };
    assert_eq!(list_popup_size(tiny, 30, 40), (20, 3));
    assert_eq!(list_popup_size(area, u16::MAX, u16::MAX), (76, 20));
}

#[test]
fn progress_bar_fills_in_proportion() {
    assert_eq!(progress_bar(500, 18), (9, 9));
    assert_eq!(progress_bar(0, 18), (0, 18));
    assert_eq!(progress_bar(1000, 18), (18, 0));
    assert_eq!(progress_bar(1200, 10), (12, 0));
    assert_eq!(progress_bar(8, 18), (0, 18));
}
