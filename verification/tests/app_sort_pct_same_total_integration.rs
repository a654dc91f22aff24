#![allow(unused_imports, dead_code, unused_mut, unused_variables, unused_assignments, clippy::all)]

use storageshower::app::{
    mount_col_width, right_col_width, right_col_width_static, App, DrillState, FilterState,
    HoverState, ThemeChooser, ThemeEditState, AlertState,
};
use storageshower::cli::{colors_text, export_theme_text, help_text, ArgId, Cli};
use storageshower::clipboard::{base64_encode, osc52_sequence};
use storageshower::helpers::{format_bytes, format_uptime, truncate_mount};
use storageshower::keys::{Key, KeyEffect};
use storageshower::mouse::MouseKind;
use storageshower::palette::{palette, palette_for_prefs, set_custom_theme, theme_lookup};
use storageshower::prefs::Prefs;
use storageshower::system::{chrono_now, epoch_to_local, get_tty, is_network_fs};
use storageshower::types::{
    BarStyle, ColorMode, DirEntry, DiskEntry, DiskKind, DragTarget, DrillSortMode, HoverZone,
    SmartHealth, SortMode, ThemeColors, UnitMode, ViewMode,
};

const NOW: u64 = 1_000_000;

trait Floats {
    fn pct(&self) -> f64;
    fn latency_ms(&self) -> Option<f64>;
    fn io_read_rate(&self) -> Option<f64>;
    fn io_write_rate(&self) -> Option<f64>;
}

impl Floats for DiskEntry {
    fn pct(&self) -> f64 {
        f64::from_bits(self.pct_bits)
    }
    fn latency_ms(&self) -> Option<f64> {
        self.latency_bits.map(f64::from_bits)
    }
    fn io_read_rate(&self) -> Option<f64> {
        self.io_read_bits.map(f64::from_bits)
    }
    fn io_write_rate(&self) -> Option<f64> {
        self.io_write_bits.map(f64::from_bits)
    }
}

struct Pv(&'static str);

impl Pv {
    fn get_name(&self) -> &'static str {
        self.0
    }
}

trait Flagged: Sized + 'static {
    fn value_variants() -> &'static [Self];
    fn to_possible_value(&self) -> Option<Pv>;
}

impl Flagged for SortMode {
    fn value_variants() -> &'static [Self] {
        &SortMode::ALL
    }
    fn to_possible_value(&self) -> Option<Pv> {
        Some(Pv(self.flag()))
    }
}

impl Flagged for BarStyle {
    fn value_variants() -> &'static [Self] {
        &BarStyle::ALL
    }
    fn to_possible_value(&self) -> Option<Pv> {
        Some(Pv(self.flag()))
    }
}

impl Flagged for UnitMode {
    fn value_variants() -> &'static [Self] {
        &UnitMode::ALL
    }
    fn to_possible_value(&self) -> Option<Pv> {
        Some(Pv(self.flag()))
    }
}

impl Flagged for ColorMode {
    fn value_variants() -> &'static [Self] {
        &ColorMode::ALL
    }
    fn to_possible_value(&self) -> Option<Pv> {
        Some(Pv(self.flag()))
    }
}

trait ThemeTable {
    fn put(&mut self, name: String, colors: ThemeColors);
    fn lookup(&self, name: &str) -> Option<ThemeColors>;
    fn contains_key(&self, name: &str) -> bool;
}

impl ThemeTable for Vec<(String, ThemeColors)> {
    fn put(&mut self, name: String, colors: ThemeColors) {
        set_custom_theme(self, name, colors)
    }
    fn lookup(&self, name: &str) -> Option<ThemeColors> {
        theme_lookup(self, &name.to_string())
    }
    fn contains_key(&self, name: &str) -> bool {
        self.lookup(name).is_some()
    }
}

struct KeyPress {
    code: Key,
    ctrl: bool,
}

fn make_key(code: Key) -> KeyPress {
    KeyPress { code, ctrl: false }
}

fn make_ctrl_key(code: Key) -> KeyPress {
    KeyPress { code, ctrl: true }
}

trait Press {
    fn press(&mut self, k: KeyPress) -> KeyEffect;
}

impl Press for App {
    fn press(&mut self, k: KeyPress) -> KeyEffect {
        self.handle_key(k.code, k.ctrl, NOW)
    }
}

fn test_disks() -> Vec<DiskEntry> {
    vec![
        DiskEntry {
            mount: "/".into(),
            used: 50_000_000_000,
            total: 100_000_000_000,
            pct_bits: f64::to_bits(50.0),
            kind: DiskKind::SSD,
            fs: "apfs".into(),
            latency_bits: None,
            io_read_bits: None,
            io_write_bits: None,
            smart_status: None,
        },
        DiskEntry {
            mount: "/home".into(),
            used: 80_000_000_000,
            total: 200_000_000_000,
            pct_bits: f64::to_bits(40.0),
            kind: DiskKind::SSD,
            fs: "ext4".into(),
            latency_bits: None,
            io_read_bits: None,
            io_write_bits: None,
            smart_status: None,
        },
        DiskEntry {
            mount: "/data".into(),
            used: 900_000_000_000,
            total: 1_000_000_000_000,
            pct_bits: f64::to_bits(90.0),
            kind: DiskKind::HDD,
            fs: "xfs".into(),
            latency_bits: None,
            io_read_bits: None,
            io_write_bits: None,
            smart_status: None,
        },
        DiskEntry {
            mount: "/tmp".into(),
            used: 100_000,
            total: 500_000_000,
            pct_bits: f64::to_bits(0.02),
            kind: DiskKind::Unknown(-1),
            fs: "tmpfs".into(),
            latency_bits: None,
            io_read_bits: None,
            io_write_bits: None,
            smart_status: None,
        },
    ]
}

fn test_app() -> App {
    let disks = test_disks();
    let mut app = App::new_default(disks.clone());
    app.disks = disks;
    app.prefs = Prefs::default();
    app.test_mode = true;
    app.update_sorted();
    app
}
// `SortMode::Pct` when two mounts share the same `total` but differ in `pct` / `used`.

fn disk(mount: &str, used: u64, total: u64, pct: f64) -> DiskEntry {
    DiskEntry {
        mount: mount.into(),
        used,
        total,
        pct_bits: f64::to_bits(pct),
        kind: DiskKind::SSD,
        fs: "ext4".into(),
        latency_bits: None,
        io_read_bits: None,
        io_write_bits: None,
        smart_status: None,
    }
}

fn app_with(disks: Vec<DiskEntry>) -> App {
    let mut app = App::new_default(Vec::new());
    app.disks = disks;
    app.test_mode = true;
    app.prefs.show_all = true;
    app
}

#[test]
fn same_total_lower_pct_sorts_first_asc() {
    let mut app = app_with(vec![
        disk("/hi", 900, 1000, 90.0),
        disk("/lo", 100, 1000, 10.0),
    ]);
    app.prefs.sort_mode = SortMode::Pct;
    app.update_sorted();
    assert_eq!(app.sorted_disks()[0].mount, "/lo");
    assert_eq!(app.sorted_disks()[1].mount, "/hi");
}

#[test]
fn same_total_pct_desc_rev() {
    let mut app = app_with(vec![disk("/a", 100, 500, 20.0), disk("/b", 400, 500, 80.0)]);
    app.prefs.sort_mode = SortMode::Pct;
    app.prefs.sort_rev = true;
    app.update_sorted();
    assert_eq!(app.sorted_disks()[0].mount, "/b");
    assert_eq!(app.sorted_disks()[1].mount, "/a");
}
