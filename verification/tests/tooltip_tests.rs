use storageshower::app::App;
use storageshower::cli::{colors_text, export_theme_text};
use storageshower::prefs::Prefs;
use storageshower::tooltips::{
    footer_segment_tooltip, segment_at_x, title_segment_tooltip, title_tooltip_at, HostFacts,
};
use storageshower::types::{ColorMode, ThemeColors, UnitMode};
use storageshower::palette::set_custom_theme;

fn host() -> HostFacts {
    HostFacts {
        hostname: "deck".to_string(),
        os_name: "Linux".to_string(),
        os_version: "6.1".to_string(),
        kernel: "6.1.0".to_string(),
        arch: "x86_64".to_string(),
        uptime: 93_784,
        mem_used: 1024,
        mem_total: 4096,
        swap_used: 0,
        swap_total: 2048,
        cpu_count: 8,
        process_count: 321,
        load_texts: ("0.50".to_string(), "0.25".to_string(), "0.10".to_string()),
        mem_pct_text: "25.0".to_string(),
    }
}

fn value<'a>(lines: &'a [(String, String)], label: &str) -> &'a str {
    lines.iter().find(|(l, _)| l == label).map(|(_, v)| v.as_str()).unwrap()
}

#[test]
fn footer_volume_tooltip_counts_hidden() {
    let app = App::new_default(Vec::new());
    let lines = footer_segment_tooltip("VOL:3", &app, &host());
    assert_eq!(value(&lines, "\u{25B6} Volumes"), "0 visible");
    let lines = footer_segment_tooltip("vol:3", &app, &host());
    assert_eq!(value(&lines, "\u{25B6} Volumes"), "3 visible");
    assert_eq!(value(&lines, "  Hidden"), "0");
}

#[test]
fn footer_sort_refresh_and_bar_tooltips() {
    let mut app = App::new_default(Vec::new());
    app.prefs.sort_rev = true;
    let sort = footer_segment_tooltip("sort:name", &app, &host());
    assert_eq!(value(&sort, "\u{25B6} Sort Mode"), "Name");
    assert_eq!(value(&sort, "  Direction"), "Descending \u{25BC}");
    let rate = footer_segment_tooltip("2s", &app, &host());
    assert_eq!(value(&rate, "\u{25B6} Refresh Rate"), "1s");
    let bar = footer_segment_tooltip("Gradient", &app, &host());
    assert_eq!(value(&bar, "\u{25B6} Bar Style"), "Gradient");
}

#[test]
fn footer_host_fields_tooltips() {
    let app = App::new_default(Vec::new());
    let up = footer_segment_tooltip("up:1d2h3m", &app, &host());
    assert_eq!(value(&up, "\u{25B6} System Uptime"), "1d2h3m");
    assert_eq!(value(&up, "  Raw"), "93784 seconds");
    let user = footer_segment_tooltip("user:neo", &app, &host());
    assert_eq!(value(&user, "\u{25B6} User"), "neo");
    let os = footer_segment_tooltip("os:linux", &app, &host());
    assert_eq!(value(&os, "\u{25B6} OS"), "Linux 6.1");
    let about = footer_segment_tooltip("CYBERDECK", &app, &host());
    assert_eq!(value(&about, "  Version"), "v0.1.0");
}

#[test]
fn footer_theme_unit_and_unknown_tooltips() {
    let mut app = App::new_default(Vec::new());
    app.prefs.color_mode = ColorMode::Matrix;
    let colors = ThemeColors { blue: 1, green: 2, purple: 3, light_purple: 4, royal: 5, dark_purple: 6 };
    set_custom_theme(&mut app.prefs.custom_themes, "mine".to_string(), colors);
    let theme = footer_segment_tooltip(" Data Stream ", &app, &host());
    assert_eq!(value(&theme, "\u{25B6} Color Theme"), "Data Stream");
    assert_eq!(value(&theme, "  Custom"), "1 user themes");
    app.prefs.unit_mode = UnitMode::GiB;
    let unit = footer_segment_tooltip("GiB", &app, &host());
    assert_eq!(value(&unit, "\u{25B6} Unit Mode"), "GiB");
    let other = footer_segment_tooltip("??", &app, &host());
    assert_eq!(other, vec![("Info".to_string(), "??".to_string())]);
}

#[test]
fn title_tooltips_by_segment() {
    let clock = ("2025.01.02".to_string(), "03:04:05".to_string());
    let node = title_tooltip_at("NODE: deck", &host(), &clock);
    assert_eq!(value(&node, "\u{25B6} Hostname"), "deck");
    assert_eq!(value(&node, "  OS"), "Linux 6.1");
    let date = title_tooltip_at("date: x", &host(), &clock);
    assert_eq!(value(&date, "\u{25B6} Date"), "2025.01.02");
    assert_eq!(value(&date, "  Time"), "03:04:05");
    let mem = title_tooltip_at("mem: 25%", &host(), &clock);
    assert_eq!(value(&mem, "  Used"), "1.0K");
    assert_eq!(value(&mem, "  Free"), "3.0K");
    assert_eq!(value(&mem, "  Usage"), "25.0%");
    let cpu = title_tooltip_at("cpu: 8", &host(), &clock);
    assert_eq!(value(&cpu, "  Cores"), "8 logical");
    let load = title_tooltip_at("load: 0.50", &host(), &clock);
    assert_eq!(value(&load, "  15 min"), "0.10");
    let paused = title_tooltip_at("\u{23F8} PAUSED", &host(), &clock);
    assert_eq!(paused[0].0, "\u{25B6} \u{23F8} PAUSED");
    let other = title_tooltip_at("whatever", &host(), &clock);
    assert_eq!(other, vec![("\u{25B6} Info".to_string(), "whatever".to_string())]);
    let now = title_segment_tooltip("clock: now", &host());
    assert_eq!(now.len(), 3);
    assert_eq!(value(&now, "\u{25B6} Date").len(), 10);
}

#[test]
fn segment_under_the_mouse() {
    let bar = " up:5m \u{2502} user:neo \u{2502} 2s ";
    assert_eq!(segment_at_x(bar, 3, 0), "up:5m");
    assert_eq!(segment_at_x(bar, 7, 0), "up:5m");
    assert_eq!(segment_at_x(bar, 8, 0), "user:neo");
    assert_eq!(segment_at_x(bar, 12, 2), "user:neo");
    assert_eq!(segment_at_x(bar, 200, 0), "2s");
    assert_eq!(segment_at_x(bar, 0, 10), "up:5m");
}

#[test]
fn list_colors_table_rows_align() {
    let text = colors_text();
    assert!(text.contains("BUILTIN COLOR SCHEMES"));
    assert!(text.contains("\x1b[1;32mdefault     \x1b[0m \x1b[1;35mNeon Sprawl \x1b[0m \x1b[48;5;27m   \x1b[0m"));
    assert!(text.contains("storageshower \x1b[1;32m--color\x1b[0m"));
    assert_eq!(text.matches("\x1b[48;5;").count(), 6 * ColorMode::ALL.len());
}

#[test]
fn export_theme_for_builtin_and_custom() {
    let mut prefs = Prefs::default();
    prefs.color_mode = ColorMode::Green;
    let text = export_theme_text(&prefs);
    assert!(text.starts_with("# Acid Rain — exported from storageshower\n[custom_themes.acid_rain]\n"));
    assert!(text.contains("blue         = 28\n"));
    assert!(text.ends_with("# active_theme = \"acid_rain\"\n"));
    let colors = ThemeColors { blue: 1, green: 2, purple: 3, light_purple: 4, royal: 5, dark_purple: 250 };
    set_custom_theme(&mut prefs.custom_themes, "My Théme-2".to_string(), colors);
    prefs.active_theme = Some("My Théme-2".to_string());
    let text = export_theme_text(&prefs);
    assert!(text.contains("[custom_themes.my_théme_2]"));
    assert!(text.contains("dark_purple  = 250\n"));
}
