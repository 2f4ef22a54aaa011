use common::command::Value;
use common::locale::LocaleSettings;
use common::game_info::GuideCache;
use common::stylesheet::{font_files, is_font_file, theme_names, FontSource, Stylesheet, StylesheetColor};
use common::color::Color;
use common::volume::VolumeChange;
use common::bitmap::Bitmap;
use common::button_icon::{button_text, ButtonIcon};
use common::geom::{Alignment, Point, Rect};
use common::input::Key;

#[test]
fn volume_is_clamped_and_mutes_at_the_bottom() {
    assert_eq!(common::volume::set(-30, 10), VolumeChange { volume: 0, mute: None });
    assert_eq!(common::volume::set(-30, -100), VolumeChange { volume: -60, mute: Some(true) });
    assert_eq!(common::volume::set(-60, -59), VolumeChange { volume: -59, mute: Some(false) });
    assert_eq!(common::volume::set(-60, -70), VolumeChange { volume: -60, mute: None });
    assert_eq!(common::volume::set(-20, -40), VolumeChange { volume: -40, mute: None });
}

#[test]
fn values_convert() {
    assert_eq!(Value::Bool(true).as_bool(), Some(true));
    assert_eq!(Value::Int(3).as_bool(), None);
    assert_eq!(Value::Int(3).as_int(), Some(3));
    assert_eq!(Value::String("x".to_string()).as_string(), Some("x".to_string()));
    assert_eq!(Value::Color(Color::new(1, 2, 3)).as_color(), Some(Color::new(1, 2, 3)));
    assert!(Value::Bool(false).as_datetime().is_none());
    assert!(matches!(Value::default(), Value::Bool(false)));
}

#[test]
fn locale_defaults_to_english() {
    assert_eq!(LocaleSettings::new().lang, "en-US");
    assert_eq!(LocaleSettings::default().lang, "en-US");
}

#[test]
fn stylesheet_defaults_and_colors() {
    let mut s = Stylesheet::new();
    assert_eq!(s.highlight_color, Color::new(114, 135, 253));
    assert_eq!(s.margin_x, 12);
    assert_eq!(StylesheetColor::Highlight.to_color(&s), Color::new(114, 135, 253));
    // Black blended half-way with the highlight.
    assert_eq!(StylesheetColor::BackgroundHighlightBlend.to_color(&s), Color::new(57, 67, 126));
    s.toggle_clock();
    assert!(!s.show_clock);
    s.toggle_battery_percentage();
    assert!(s.show_battery_level);
    let mut t = Stylesheet::default();
    t.merge(s.clone());
    assert!(!t.show_clock);
    assert!(t.show_battery_level);
    assert_eq!(t.highlight_color, s.highlight_color);
}

#[test]
fn merge_keeps_the_wallpaper_unless_the_override_has_one_and_keeps_the_cjk_font() {
    let mut base = Stylesheet::default();
    base.wallpaper = Some("wall.png".to_string());
    base.cjk_font = FontSource::new("Other.otf", 30);
    let mut other = Stylesheet::default();
    other.margin_x = 20;
    other.ui_font = FontSource::new("Big.ttf", 40);
    other.cjk_font = FontSource::new("Ignored.otf", 10);
    base.merge(other.clone());
    assert_eq!(base.wallpaper.as_deref(), Some("wall.png"));
    assert_eq!(base.margin_x, 20);
    assert_eq!((base.ui_font.path.as_str(), base.ui_font.size), ("Big.ttf", 40));
    assert_eq!((base.cjk_font.path.as_str(), base.cjk_font.size), ("Other.otf", 30));
    other.wallpaper = Some("new.png".to_string());
    base.merge(other.clone());
    assert_eq!(base.wallpaper.as_deref(), Some("new.png"));
    // Merging the same sheet again changes nothing.
    base.merge(other);
    assert_eq!(base.wallpaper.as_deref(), Some("new.png"));
    assert_eq!(base.margin_x, 20);
    assert_eq!((base.cjk_font.path.as_str(), base.cjk_font.size), ("Other.otf", 30));
}

#[test]
fn retroarch_theme_of_default_stylesheet() {
    let s = Stylesheet::default();
    let expected = "rgui_entry_normal_color = \"0xFFFFFFFF\"
rgui_entry_hover_color = \"0xFFFFFFFF\"
rgui_title_color = \"0xFF7287FD\"
rgui_bg_dark_color = \"0xFF000000\"
rgui_bg_light_color = \"0xFF000000\"
rgui_border_dark_color = \"0xFF000000\"
rgui_border_light_color = \"0xFF000000\"
rgui_shadow_color = \"0xFF000000\"
rgui_particle_color = \"0xFF7287FD\"
rgui_wallpaper = \"/mnt/SDCARD/RetroArch/.retroarch/assets/rgui/Allium.png\"
";
    assert_eq!(s.retroarch_theme(), expected);
}

#[test]
fn wallpaper_tint_mixes_background() {
    let mut s = Stylesheet::default();
    s.background_color = Color::rgba(255, 0, 0, 51);
    let mut img = Bitmap::from_raw(1, 1, vec![100, 100, 100, 77]).unwrap();
    s.tint_wallpaper(&mut img);
    assert_eq!(img.get_pixel(0, 0), (131, 80, 80, 77));
    s.background_color = Color::rgba(255, 0, 0, 0);
    s.tint_wallpaper(&mut img);
    assert_eq!(img.get_pixel(0, 0), (131, 80, 80, 77));
}

#[test]
fn button_labels() {
    assert_eq!(button_text(Key::A), "A");
    assert_eq!(button_text(Key::Up), "");
    assert_eq!(button_text(Key::Select), "SELECT");
    assert_eq!(button_text(Key::VolUp), "VOL+");
    assert_eq!(button_text(Key::VolDown), "VOL-");
    let b = ButtonIcon::new(Point::new(100, 5), Key::B, Alignment::Center);
    assert_eq!(b.bounding_box(30, 32), Rect::new(85, 5, 30, 32));
    let r = ButtonIcon::new(Point::new(100, 5), Key::B, Alignment::Right);
    assert_eq!(r.bounding_box(30, 32), Rect::new(70, 5, 30, 32));
}

#[test]
fn message_is_centred_in_a_bubble() {
    assert_eq!(common::say::message_anchor(640, 480, 2, 40), common::geom::Point::new(320, 200));
    let (bubble, radius) = common::say::message_bubble(common::geom::Rect::new(300, 200, 40, 80), 40);
    assert_eq!(bubble, common::geom::Rect::new(288, 192, 64, 96));
    assert_eq!(radius, 24);
}

#[test]
fn guide_search_stops_at_the_games_folder() {
    let path: Vec<String> = ["mnt", "Roms", "GBA", "sub", "game.gba"].iter().map(|s| s.to_string()).collect();
    let games: Vec<String> = ["mnt", "Roms"].iter().map(|s| s.to_string()).collect();
    assert_eq!(common::game_info::guide_parents(&path, &games), vec![4, 3, 2]);
    let elsewhere: Vec<String> = ["media"].iter().map(|s| s.to_string()).collect();
    assert_eq!(common::game_info::guide_parents(&path, &elsewhere), vec![4, 3, 2, 1, 0]);
    assert_eq!(common::game_info::guide_parents(&Vec::new(), &games), Vec::<usize>::new());
}

#[test]
fn guide_path_mirrors_the_game_below_guides() {
    let path: Vec<String> = ["mnt", "Roms", "GBA", "game.gba"].iter().map(|s| s.to_string()).collect();
    assert_eq!(
        common::game_info::guide_path(&path, 2, "game.txt"),
        vec!["mnt", "Roms", "Guides", "GBA", "game.txt"]
    );
    assert_eq!(common::game_info::first_found(&vec![false, true, true]), Some(1));
    assert_eq!(common::game_info::first_found(&vec![false, false]), None);
}

#[test]
fn retroarch_wallpaper_is_scaled_to_the_menu() {
    use_rgui_sizes();
    let values = common::stylesheet::Stylesheet::new();
    let raw = vec![200u8; 640 * 480 * 4];
    let wallpaper = common::bitmap::Bitmap::from_raw(640, 480, raw).unwrap();
    let out = values.retroarch_wallpaper(wallpaper);
    assert_eq!(out.dimensions(), (320, 240));
}

fn use_rgui_sizes() {
    assert_eq!(common::stylesheet::rgui_wallpaper_size(640, 480), Some((320, 240)));
    assert_eq!(common::stylesheet::rgui_wallpaper_size(320, 240), None);
    assert_eq!(common::stylesheet::rgui_wallpaper_size(1000, 100), Some((320, 32)));
}

#[test]
fn font_files_are_the_visible_fonts_in_order() {
    assert!(is_font_file("Nunito.ttf"));
    assert!(is_font_file("NotoSansCJK.otf"));
    assert!(is_font_file("a.b.ttc"));
    assert!(!is_font_file(".hidden.ttf"));
    assert!(!is_font_file("readme.txt"));
    assert!(!is_font_file("ttf"));
    assert!(!is_font_file("font.TTF"));
    assert!(!is_font_file(""));
    let names = vec![
        "b.ttf".to_string(),
        ".hidden.ttf".to_string(),
        "a.otf".to_string(),
        "x.txt".to_string(),
        "c.ttc".to_string(),
        "noext".to_string(),
    ];
    assert_eq!(font_files(names), vec!["a.otf".to_string(), "b.ttf".to_string(), "c.ttc".to_string()]);
}

#[test]
fn theme_names_skip_hidden_folders_and_sort() {
    let names = vec!["Zelda".to_string(), ".git".to_string(), "Allium".to_string(), "Retro".to_string()];
    assert_eq!(theme_names(names), vec!["Allium".to_string(), "Retro".to_string(), "Zelda".to_string()]);
    assert!(theme_names(Vec::new()).is_empty());
}

#[test]
fn guide_cache_keeps_the_first_search() {
    let mut cache = GuideCache::new();
    assert_eq!(cache.lookup("/Roms/GB/a.gb"), None);
    assert_eq!(cache.record("/Roms/GB/a.gb", Some("/Roms/Guides/GB/a.txt".to_string())), Some("/Roms/Guides/GB/a.txt".to_string()));
    assert_eq!(cache.lookup("/Roms/GB/a.gb"), Some(Some("/Roms/Guides/GB/a.txt".to_string())));
    assert_eq!(cache.record("/Roms/GB/a.gb", None), Some("/Roms/Guides/GB/a.txt".to_string()));
    assert_eq!(cache.record("/Roms/GB/b.gb", None), None);
    assert_eq!(cache.lookup("/Roms/GB/b.gb"), Some(None));
    assert_eq!(cache.record("/Roms/GB/b.gb", Some("x".to_string())), None);
}
