#![allow(unused_imports, dead_code, unused_mut, unused_variables, unused_assignments, clippy::all)]

use storageshower::app::{
    mount_col_width, right_col_width, right_col_width_static, App, DrillState, FilterState,
    HoverState, ThemeChooser, ThemeEditState, AlertState,
};
use storageshower::cli::{colors_text, export_theme_text, help_text, ArgId, Cli};
use storageshower::clipboard::{base64_encode, osc52_sequence};
use storageshower::helpers::{format_bytes, format_uptime, truncate_mount};
use storageshower::keys::{Key, KeyEffect};
use storageshower::mouse::MouseKind;
use storageshower::palette::{palette, palette_for_prefs, set_custom_theme, theme_lookup};
use storageshower::prefs::Prefs;
use storageshower::system::{chrono_now, epoch_to_local, get_tty, is_network_fs};
use storageshower::types::{
    BarStyle, ColorMode, DirEntry, DiskEntry, DiskKind, DragTarget, DrillSortMode, HoverZone,
    SmartHealth, SortMode, ThemeColors, UnitMode, ViewMode,
};

const NOW: u64 = 1_000_000;

trait Floats {
    fn pct(&self) -> f64;
    fn latency_ms(&self) -> Option<f64>;
    fn io_read_rate(&self) -> Option<f64>;
    fn io_write_rate(&self) -> Option<f64>;
}

impl Floats for DiskEntry {
    fn pct(&self) -> f64 {
        f64::from_bits(self.pct_bits)
    }
    fn latency_ms(&self) -> Option<f64> {
        self.latency_bits.map(f64::from_bits)
    }
    fn io_read_rate(&self) -> Option<f64> {
        self.io_read_bits.map(f64::from_bits)
    }
    fn io_write_rate(&self) -> Option<f64> {
        self.io_write_bits.map(f64::from_bits)
    }
}

struct Pv(&'static str);

impl Pv {
    fn get_name(&self) -> &'static str {
        self.0
    }
}

trait Flagged: Sized + 'static {
    fn value_variants() -> &'static [Self];
    fn to_possible_value(&self) -> Option<Pv>;
}

impl Flagged for SortMode {
    fn value_variants() -> &'static [Self] {
        &SortMode::ALL
    }
    fn to_possible_value(&self) -> Option<Pv> {
        Some(Pv(self.flag()))
    }
}

impl Flagged for BarStyle {
    fn value_variants() -> &'static [Self] {
        &BarStyle::ALL
    }
    fn to_possible_value(&self) -> Option<Pv> {
        Some(Pv(self.flag()))
    }
}

impl Flagged for UnitMode {
    fn value_variants() -> &'static [Self] {
        &UnitMode::ALL
    }
    fn to_possible_value(&self) -> Option<Pv> {
        Some(Pv(self.flag()))
    }
}

impl Flagged for ColorMode {
    fn value_variants() -> &'static [Self] {
        &ColorMode::ALL
    }
    fn to_possible_value(&self) -> Option<Pv> {
        Some(Pv(self.flag()))
    }
}

trait ThemeTable {
    fn put(&mut self, name: String, colors: ThemeColors);
    fn lookup(&self, name: &str) -> Option<ThemeColors>;
    fn contains_key(&self, name: &str) -> bool;
}

impl ThemeTable for Vec<(String, ThemeColors)> {
    fn put(&mut self, name: String, colors: ThemeColors) {
        set_custom_theme(self, name, colors)
    }
    fn lookup(&self, name: &str) -> Option<ThemeColors> {
        theme_lookup(self, &name.to_string())
    }
    fn contains_key(&self, name: &str) -> bool {
        self.lookup(name).is_some()
    }
}

struct KeyPress {
    code: Key,
    ctrl: bool,
}

fn make_key(code: Key) -> KeyPress {
    KeyPress { code, ctrl: false }
}

fn make_ctrl_key(code: Key) -> KeyPress {
    KeyPress { code, ctrl: true }
}

trait Press {
    fn press(&mut self, k: KeyPress) -> KeyEffect;
}

impl Press for App {
    fn press(&mut self, k: KeyPress) -> KeyEffect {
        self.handle_key(k.code, k.ctrl, NOW)
    }
}

fn test_disks() -> Vec<DiskEntry> {
    vec![
        DiskEntry {
            mount: "/".into(),
            used: 50_000_000_000,
            total: 100_000_000_000,
            pct_bits: f64::to_bits(50.0),
            kind: DiskKind::SSD,
            fs: "apfs".into(),
            latency_bits: None,
            io_read_bits: None,
            io_write_bits: None,
            smart_status: None,
        },
        DiskEntry {
            mount: "/home".into(),
            used: 80_000_000_000,
            total: 200_000_000_000,
            pct_bits: f64::to_bits(40.0),
            kind: DiskKind::SSD,
            fs: "ext4".into(),
            latency_bits: None,
            io_read_bits: None,
            io_write_bits: None,
            smart_status: None,
        },
        DiskEntry {
            mount: "/data".into(),
            used: 900_000_000_000,
            total: 1_000_000_000_000,
            pct_bits: f64::to_bits(90.0),
            kind: DiskKind::HDD,
            fs: "xfs".into(),
            latency_bits: None,
            io_read_bits: None,
            io_write_bits: None,
            smart_status: None,
        },
        DiskEntry {
            mount: "/tmp".into(),
            used: 100_000,
            total: 500_000_000,
            pct_bits: f64::to_bits(0.02),
            kind: DiskKind::Unknown(-1),
            fs: "tmpfs".into(),
            latency_bits: None,
            io_read_bits: None,
            io_write_bits: None,
            smart_status: None,
        },
    ]
}

fn test_app() -> App {
    let disks = test_disks();
    let mut app = App::new_default(disks.clone());
    app.disks = disks;
    app.prefs = Prefs::default();
    app.test_mode = true;
    app.update_sorted();
    app
}

#[test]
fn mouse_right_click_triggers_hover() {
    let mut app = test_app();
    assert!(app.hover.pos.is_none());
    app.handle_mouse(MouseKind::RightDown, 15, 5, 80, 24, NOW);
    assert_eq!(app.hover.pos, Some((15, 5)));
    // Should be instantly ready (timestamp set in the past)
    assert!(app.hover_ready(NOW));
}

#[test]
fn mouse_drag_mount_sep() {
    let mut app = test_app();
    let mount_w = mount_col_width(78, &app.prefs);
    let mount_sep_x = 1 + 3 + mount_w as u16;

    // Click near mount separator
    app.handle_mouse(MouseKind::LeftDown, mount_sep_x, 5, 80, 24, NOW);
    assert!(matches!(app.drag, Some(DragTarget::MountSep)));

    // Drag to new position
    app.handle_mouse(MouseKind::LeftDrag, 30, 5, 80, 24, NOW);
    assert!(app.prefs.col_mount_w > 0);

    // Release
    app.handle_mouse(MouseKind::LeftUp, 30, 5, 80, 24, NOW);
    assert!(app.drag.is_none());
}

#[test]
fn mouse_up_without_drag_noop() {
    let mut app = test_app();
    assert!(app.drag.is_none());
    app.handle_mouse(MouseKind::LeftUp, 10, 10, 80, 24, NOW);
    // No crash, drag is still None
    assert!(app.drag.is_none());
}

#[test]
fn mouse_scroll_and_other_events_noop() {
    let mut app = test_app();
    let prev_help = app.show_help;
    app.handle_mouse(MouseKind::ScrollUp, 10, 10, 80, 24, NOW);
    assert_eq!(app.show_help, prev_help);
}

#[test]
fn mouse_click_selects_disk_row() {
    let mut app = test_app();
    assert!(app.selected.is_none());
    // With border + header, first disk row is at y=5
    app.handle_mouse(MouseKind::LeftDown, 10, 5, 80, 24, NOW);
    assert_eq!(app.selected, Some(0));
}

#[test]
fn mouse_click_selects_second_disk() {
    let mut app = test_app();
    app.handle_mouse(MouseKind::LeftDown, 10, 6, 80, 24, NOW);
    assert_eq!(app.selected, Some(1));
}

#[test]
fn mouse_click_out_of_range_no_select() {
    let mut app = test_app();
    // Click far below disk rows (row 50 is way past the 4 disks)
    app.handle_mouse(MouseKind::LeftDown, 10, 50, 80, 24, NOW);
    assert!(app.selected.is_none());
}

#[test]
fn mouse_click_already_selected_enters_drilldown() {
    let mut app = test_app();
    // First click selects
    app.handle_mouse(MouseKind::LeftDown, 10, 5, 80, 24, NOW);
    assert_eq!(app.selected, Some(0));
    assert_eq!(app.drill.mode, ViewMode::Disks);

    // Second click on same row enters drill-down
    app.handle_mouse(MouseKind::LeftDown, 10, 5, 80, 24, NOW);
    assert_eq!(app.drill.mode, ViewMode::DrillDown);
}

#[test]
fn theme_chooser_mouse_click_selects() {
    let mut app = test_app();
    app.press(make_key(Key::Char('c')));
    assert!(app.theme_chooser.active);
    // Popup is centered. For 80x24 term, box_w=50, x0=15, y0 depends on theme count
    // Content starts at y0+2. Click on content area row 0 → first theme
    let themes = app.all_themes();
    let box_h = (themes.len() as u16 + 4).min(20); // 24 - 4 = 20
    let y0 = (24u16.saturating_sub(box_h)) / 2;
    let content_y = y0 + 2;
    // Click second row in content
    app.handle_mouse(MouseKind::LeftDown, 30, content_y + 1, 80, 24, NOW);
    assert_eq!(app.theme_chooser.selected, 1);
    assert!(app.theme_chooser.active); // Still open after single click
}

#[test]
fn theme_chooser_mouse_click_outside_cancels() {
    let mut app = test_app();
    app.press(make_key(Key::Char('c')));
    assert!(app.theme_chooser.active);
    // Click far outside popup
    app.handle_mouse(MouseKind::LeftDown, 0, 0, 80, 24, NOW);
    assert!(!app.theme_chooser.active);
    // Should revert to original
    assert_eq!(app.prefs.color_mode, ColorMode::Default);
}

#[test]
fn theme_chooser_mouse_scroll_navigates() {
    let mut app = test_app();
    app.press(make_key(Key::Char('c')));
    assert_eq!(app.theme_chooser.selected, 0);
    // Scroll down
    app.handle_mouse(MouseKind::ScrollDown, 40, 12, 80, 24, NOW);
    assert_eq!(app.theme_chooser.selected, 1);
    // Auto-applied
    assert_eq!(app.prefs.color_mode, ColorMode::ALL[1]);
    // Scroll up
    app.handle_mouse(MouseKind::ScrollUp, 40, 12, 80, 24, NOW);
    assert_eq!(app.theme_chooser.selected, 0);
    assert_eq!(app.prefs.color_mode, ColorMode::ALL[0]);
}

#[test]
fn right_click_sets_hover_right_click_flag() {
    let mut app = test_app();
    assert!(!app.hover.right_click);
    app.handle_mouse(MouseKind::RightDown, 15, 5, 80, 24, NOW);
    assert!(app.hover.right_click);
    assert_eq!(app.hover.pos, Some((15, 5)));
    assert!(app.hover_ready(NOW));
}

#[test]
fn mouse_move_clears_right_click_flag() {
    let mut app = test_app();
    // Right-click first
    app.handle_mouse(MouseKind::RightDown, 15, 5, 80, 24, NOW);
    assert!(app.hover.right_click);
    // Move mouse
    app.handle_mouse(MouseKind::Moved, 20, 5, 80, 24, NOW);
    assert!(!app.hover.right_click);
    assert_eq!(app.hover.pos, Some((20, 5)));
}

#[test]
fn mouse_move_same_pos_keeps_right_click_flag() {
    let mut app = test_app();
    app.handle_mouse(MouseKind::RightDown, 15, 5, 80, 24, NOW);
    assert!(app.hover.right_click);
    // Move to same position — should not clear
    app.handle_mouse(MouseKind::Moved, 15, 5, 80, 24, NOW);
    assert!(app.hover.right_click);
}

#[test]
fn mouse_move_cancels_hover_before_theme_chooser() {
    let mut app = test_app();
    // Move to title bar to start hover timer
    app.handle_mouse(MouseKind::Moved, 10, 1, 80, 24, NOW);
    assert!(app.hover.since_ms.is_some());

    // Open theme chooser
    app.press(make_key(Key::Char('c')));
    assert!(app.theme_chooser.active);

    // Move mouse while theme chooser is open — hover timer must be cancelled
    app.handle_mouse(MouseKind::Moved, 20, 10, 80, 24, NOW);
    assert!(app.hover.since_ms.is_none());
    assert_eq!(app.hover.pos, Some((20, 10)));
}

#[test]
fn mouse_move_in_theme_chooser_same_pos_preserves_hover() {
    let mut app = test_app();
    // Set up hover at a position, then open theme chooser
    app.handle_mouse(MouseKind::Moved, 10, 1, 80, 24, NOW);
    let since_before = app.hover.since_ms;
    app.press(make_key(Key::Char('c')));

    // Move to SAME position — should not reset
    app.handle_mouse(MouseKind::Moved, 10, 1, 80, 24, NOW);
    assert_eq!(app.hover.since_ms, since_before);
}

#[test]
fn hover_ready_false_before_delay() {
    let mut app = test_app();
    app.hover.since_ms = Some(NOW);
    app.hover.right_click = false;
    assert!(!app.hover_ready(NOW));
}

#[test]
fn hover_auto_hides_after_4s() {
    let mut app = test_app();
    // Simulate hover started 5 seconds ago (past the 4s auto-hide window)
    app.hover.since_ms = Some(NOW - 5_000);
    app.hover.right_click = false;
    assert!(!app.hover_ready(NOW));
}

#[test]
fn hover_visible_within_window() {
    let mut app = test_app();
    // Simulate hover started 2 seconds ago (past 1s delay, within 4s auto-hide)
    app.hover.since_ms = Some(NOW - 2000);
    app.hover.right_click = false;
    assert!(app.hover_ready(NOW));
}

#[test]
fn right_click_hover_does_not_auto_hide() {
    let mut app = test_app();
    // Simulate right-click hover started 10 seconds ago
    app.hover.since_ms = Some(NOW - 10_000);
    app.hover.right_click = true;
    assert!(app.hover_ready(NOW));
}

#[test]
fn mouse_move_to_empty_zone_cancels_hover_timer() {
    let mut app = test_app();
    // Move to title bar (hover zone)
    app.handle_mouse(MouseKind::Moved, 10, 1, 80, 24, NOW);
    assert!(app.hover.since_ms.is_some());
    // Move to border row 0 (HoverZone::Outside)
    app.handle_mouse(MouseKind::Moved, 10, 0, 80, 24, NOW);
    assert!(app.hover.since_ms.is_none());
}

#[test]
fn mouse_move_within_zone_keeps_hover_timer() {
    let mut app = test_app();
    // Move to a disk row (valid zone)
    app.handle_mouse(MouseKind::Moved, 10, 5, 80, 24, NOW);
    assert!(app.hover.since_ms.is_some());
    // Move to another disk row (still valid zone)
    app.handle_mouse(MouseKind::Moved, 10, 6, 80, 24, NOW);
    assert!(app.hover.since_ms.is_some());
}

#[test]
fn drag_pct_sep_takes_priority_over_sort() {
    let mut app = test_app();
    app.prefs.show_used = true;
    let right_w = right_col_width(&app);
    let pct_w: u16 = if app.prefs.col_pct_w > 0 {
        app.prefs.col_pct_w
    } else {
        5
    };
    let right_start = 80u16.saturating_sub(1 + right_w);
    let pct_sep_x = right_start + pct_w;
    let header_row: u16 = 3; // show_border default = true, so header_row = 3

    // Click at pct separator on header row
    app.handle_mouse(MouseKind::LeftDown, pct_sep_x, header_row, 80, 24, NOW);
    // Should start drag, not sort
    assert!(matches!(app.drag, Some(DragTarget::PctSep)));
}

#[test]
fn drag_bar_end_sep_takes_priority_over_sort() {
    let mut app = test_app();
    let right_w = right_col_width(&app);
    let bar_end_x = 80u16.saturating_sub(1 + right_w + 1);
    let header_row: u16 = 3;

    app.handle_mouse(MouseKind::LeftDown, bar_end_x, header_row, 80, 24, NOW);
    assert!(matches!(app.drag, Some(DragTarget::BarEndSep)));
}

#[test]
fn drag_pct_sep_and_release() {
    let mut app = test_app();
    app.prefs.show_used = true;
    let right_w = right_col_width(&app);
    let pct_w: u16 = if app.prefs.col_pct_w > 0 {
        app.prefs.col_pct_w
    } else {
        5
    };
    let right_start = 80u16.saturating_sub(1 + right_w);
    let pct_sep_x = right_start + pct_w;

    // Start drag
    app.handle_mouse(MouseKind::LeftDown, pct_sep_x, 5, 80, 24, NOW);
    assert!(matches!(app.drag, Some(DragTarget::PctSep)));

    // Drag to new position
    app.handle_mouse(MouseKind::LeftDrag, pct_sep_x + 3, 5, 80, 24, NOW);
    assert!(app.prefs.col_pct_w > 0);

    // Release
    app.handle_mouse(MouseKind::LeftUp, pct_sep_x + 3, 5, 80, 24, NOW);
    assert!(app.drag.is_none());
}

#[test]
fn drag_bar_end_sep_and_release() {
    let mut app = test_app();
    let right_w = right_col_width(&app);
    let bar_end_x = 80u16.saturating_sub(1 + right_w + 1);

    // Start drag
    app.handle_mouse(MouseKind::LeftDown, bar_end_x, 5, 80, 24, NOW);
    assert!(matches!(app.drag, Some(DragTarget::BarEndSep)));

    // Drag
    app.handle_mouse(MouseKind::LeftDrag, bar_end_x - 5, 5, 80, 24, NOW);
    assert!(app.prefs.col_bar_end_w > 0);

    // Release
    app.handle_mouse(MouseKind::LeftUp, bar_end_x - 5, 5, 80, 24, NOW);
    assert!(app.drag.is_none());
}
