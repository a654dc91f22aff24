//! What a mouse event does: clicks on the header and the rows, dragging the column
//! separators, the wheel, the hover tooltip and the theme chooser's popup.
use vstd::prelude::*;
use crate::app::{first_disk_row, sat_sub, zone_at, App, HoverState, ThemeChooser};
use crate::columns::{mount_col_for, mount_col_width, right_col_for, right_col_width};
use crate::keys::{
    chooser_moved, drill_opened, min_int, relisted, saving, KeyEffect,
};
use crate::prefs::Prefs;
use crate::types::{DragTarget, HoverZone, SortMode, ViewMode};

verus! {

/// A mouse event, as the interface tells them apart.
#[derive(Clone, Copy, Debug, PartialEq, Eq, Structural)]
pub enum MouseKind {
    LeftDown,
    LeftDrag,
    LeftUp,
    RightDown,
    Moved,
    ScrollDown,
    ScrollUp,
    /// Any other event.
    Other,
}

/// Where the disk table's columns lie in a window of a given width.
#[derive(Clone, Copy, Debug, PartialEq, Eq, Structural)]
pub struct ColumnLayout {
    /// Width of the border on each side (0 or 1).
    pub margin: u16,
    /// Width inside the border.
    pub inner_w: u16,
    /// Column of the separator after the mount column.
    pub mount_sep_x: u16,
    /// Width of the right-hand column.
    pub right_w: u16,
    /// Column where the bars end.
    pub bar_end_x: u16,
    /// Column where the right-hand column starts.
    pub right_start: u16,
    /// Column of the separator after the percentage.
    pub pct_sep_x: u16,
    /// Row of the table header.
    pub header_row: u16,
}

/// Width of the percentage column.
pub open spec fn pct_col(p: Prefs) -> int {
    if p.col_pct_w > 0 { p.col_pct_w as int } else { 5 }
}

/// The columns of the disk table in a window `w` cells wide.
pub open spec fn layout_of(a: App, w: int) -> ColumnLayout {
    let m = if a.prefs.show_border { 1int } else { 0int };
    let inner_w = sat_sub(w, 2 * m);
    let right_w = right_col_for(a.prefs, a.sorted_cache@);
    let right_start = sat_sub(w, m + right_w);
    ColumnLayout {
        margin: m as u16,
        inner_w: inner_w as u16,
        mount_sep_x: (m + 3 + mount_col_for(inner_w, a.prefs)) as u16,
        right_w,
        bar_end_x: sat_sub(w, m + right_w + 1) as u16,
        right_start: right_start as u16,
        pct_sep_x: (right_start + pct_col(a.prefs)) as u16,
        header_row: if a.prefs.show_border { 3 } else { 2 },
    }
}

/// `|a - b|`.
pub open spec fn dist(a: int, b: int) -> int {
    if a >= b { a - b } else { b - a }
}

/// `v` held between `lo` and `hi`.
pub open spec fn clamp(v: int, lo: int, hi: int) -> int {
    if v < lo { lo } else if v > hi { hi } else { v }
}

/// Entries in the theme list.
pub open spec fn theme_count(a: App) -> int {
    30 + a.prefs.custom_themes@.len() as int
}

/// Height of the theme chooser's popup in a window `h` rows high.
pub open spec fn popup_h(a: App, h: int) -> int {
    min_int(theme_count(a) % 65536 + 4, sat_sub(h, 4))
}

/// What a mouse event needs of the state and the window so that no computation of it
/// overflows or holds a value between bounds that cross: the popup needs 8 rows (and a
/// second column for a click right of its left edge); the columns must fit in the
/// window's coordinates; dragging a separator needs room for the column it bounds; a
/// right click comes at least two seconds into the clock. The listing, the highlighted
/// row and the chooser's highlight stay below 2^30, far more entries than a 32-bit
/// address space can hold, so that the row arithmetic cannot overflow on any target.
pub open spec fn mouse_ready(a: App, kind: MouseKind, x: u16, y: u16, w: u16, h: u16, now: u64) -> bool {
    if a.theme_chooser.active {
        &&& h >= 8
        &&& theme_count(a) % 65536 <= 65531
        &&& a.theme_chooser.selected < 0x4000_0000
        &&& !(kind == MouseKind::LeftDown && w <= 1 && x >= 1)
    } else {
        let m = if a.prefs.show_border { 1int } else { 0int };
        let inner_w = sat_sub(w as int, 2 * m);
        let right_w = right_col_for(a.prefs, a.sorted_cache@) as int;
        &&& a.prefs.col_mount_w > 0 ==> inner_w >= 28
        &&& m + right_w + 1 <= 65535
        &&& sat_sub(w as int, m + right_w) + pct_col(a.prefs) <= 65535
        &&& a.sorted_cache@.len() < 0x4000_0000
        &&& (a.selected matches Some(i) ==> i < 0x4000_0000)
        &&& a.drill.selected < usize::MAX
        &&& (kind == MouseKind::LeftDrag && a.drag == Some(DragTarget::MountSep) ==> inner_w >= 28)
        &&& (kind == MouseKind::LeftDrag && a.drag == Some(DragTarget::BarEndSep) ==> inner_w / 2 >= 5 && m + x + 1 <= 65535)
        &&& (kind == MouseKind::LeftDrag && a.drag == Some(DragTarget::PctSep) ==> right_w >= 10)
        &&& (kind == MouseKind::RightDown ==> now >= 2000)
    }
}

/// The state after the mouse moved to `(x, y)`: a new position restarts the tooltip's
/// timer (the handlers below start it again where a tooltip can show).
pub open spec fn after_move(a: App, kind: MouseKind, x: u16, y: u16) -> App {
    if kind == MouseKind::Moved && a.hover.pos != Some((x, y)) {
        App { hover: HoverState { pos: Some((x, y)), since_ms: None, right_click: false }, ..a }
    } else {
        a
    }
}

/// Width of the theme chooser's popup in a window `w` cells wide.
pub open spec fn popup_w(w: int) -> int {
    min_int(50, sat_sub(w, 4))
}

/// Left column of the popup.
pub open spec fn popup_x0(w: int) -> int {
    sat_sub(w, popup_w(w)) / 2
}

/// Top row of the popup.
pub open spec fn popup_y0(a: App, h: int) -> int {
    sat_sub(h, popup_h(a, h)) / 2
}

/// How many entries are scrolled off the top of the popup to keep the highlight in
/// view: its content rows are those between its border rows and a blank row at each
/// end.
pub open spec fn popup_scroll(a: App, h: int) -> int {
    let visible = popup_h(a, h) - 4;
    let sel = a.theme_chooser.selected as int;
    if sel >= visible { sel - visible + 1 } else { 0 }
}

/// A click in the theme chooser: on an entry it highlights and previews it, outside the
/// popup it cancels (restoring the theme in force when the chooser opened).
#[verifier::opaque]
pub open spec fn chooser_click_step(a: App, x: int, y: int, w: int, h: int, b: App) -> bool {
    let x0 = popup_x0(w);
    let y0 = popup_y0(a, h);
    let bw = popup_w(w);
    let bh = popup_h(a, h);
    let tc = a.theme_chooser;
    if x > x0 && x + 1 < x0 + bw && y >= y0 + 2 && y + 2 < y0 + bh {
        let idx = popup_scroll(a, h) + (y - (y0 + 2));
        if idx < theme_count(a) { chooser_moved(a, idx, b) } else { b == a }
    } else if x < x0 || x >= x0 + bw || y < y0 || y >= y0 + bh {
        b == App {
            prefs: Prefs { color_mode: tc.orig_color_mode, active_theme: tc.orig_active_theme, ..a.prefs },
            theme_chooser: ThemeChooser { active: false, ..tc },
            ..a
        }
    } else {
        b == a
    }
}

/// A click in the theme chooser leaves the listing as it is.
proof fn lemma_click_keeps_listing(a: App, x: int, y: int, w: int, h: int, b: App)
    requires
        chooser_click_step(a, x, y, w, h, b),
    ensures
        b.sorted_cache == a.sorted_cache,
{
    reveal(chooser_click_step);
    reveal(chooser_moved);
}

/// The theme chooser's popup: clicks (see `chooser_click_step`), and the wheel, which
/// moves the highlight.
pub open spec fn chooser_mouse_step(a: App, kind: MouseKind, x: int, y: int, w: int, h: int, b: App) -> bool {
    let n = theme_count(a);
    let sel = a.theme_chooser.selected as int;
    if kind == MouseKind::LeftDown {
        chooser_click_step(a, x, y, w, h, b)
    } else if kind == MouseKind::ScrollDown {
        chooser_moved(a, min_int(sel + 1, n - 1), b)
    } else if kind == MouseKind::ScrollUp {
        chooser_moved(a, sat_sub(sel, 1), b)
    } else {
        b == a
    }
}

/// Sorting by `mode`: choosing the sort in force reverses the order, choosing another
/// one sorts ascending by it.
pub open spec fn sorted_by(p: Prefs, mode: SortMode) -> Prefs {
    if p.sort_mode == mode {
        Prefs { sort_rev: !p.sort_rev, ..p }
    } else {
        Prefs { sort_mode: mode, sort_rev: false, ..p }
    }
}

/// The sort chosen by a click at column `x` of the header: the mount column sorts by
/// name, the percentage by usage, the sizes (when shown) by size.
pub open spec fn header_sort_at(p: Prefs, l: ColumnLayout, x: int) -> Option<SortMode> {
    if x >= l.margin && x < l.mount_sep_x {
        Some(SortMode::Name)
    } else if x > l.bar_end_x && x < l.right_start {
        None
    } else if x >= l.right_start && x < l.pct_sep_x {
        Some(SortMode::Pct)
    } else if p.show_used && x > l.pct_sep_x {
        Some(SortMode::Size)
    } else {
        None
    }
}

/// A left click: next to a column separator it starts dragging it; on the header it
/// sorts (again: reverses) by the column; on a disk row it highlights the row, and on
/// the highlighted row it drills into the disk.
pub open spec fn left_click_step(a: App, l: ColumnLayout, x: int, y: int, b: App, eff: KeyEffect) -> bool {
    let count = a.sorted_cache@.len() as int;
    let first = first_disk_row(a.prefs);
    if dist(x, l.mount_sep_x as int) <= 1 {
        b == App { drag: Some(DragTarget::MountSep), ..a } && eff is Nothing
    } else if a.prefs.show_used && dist(x, l.pct_sep_x as int) <= 1 {
        b == App { drag: Some(DragTarget::PctSep), ..a } && eff is Nothing
    } else if dist(x, l.bar_end_x as int) <= 1 {
        b == App { drag: Some(DragTarget::BarEndSep), ..a } && eff is Nothing
    } else if a.prefs.show_header && y == l.header_row {
        match header_sort_at(a.prefs, l, x) {
            Some(m) => b == App { prefs: sorted_by(a.prefs, m), ..a } && saving(a, eff),
            None => b == a && eff is Nothing,
        }
    } else if y >= first && y - first < count {
        if a.selected == Some((y - first) as usize) {
            drill_opened(a, b, eff)
        } else {
            b == App { selected: Some((y - first) as usize), ..a } && eff is Nothing
        }
    } else {
        b == a && eff is Nothing
    }
}

/// Dragging a separator to column `x` resizes the column it bounds: the mount column
/// to between 8 and `inner_w - 20`, the right-hand column to between 5 and half the
/// inner width, the percentage column to between 4 and the right-hand column less 6.
pub open spec fn drag_step(a: App, l: ColumnLayout, x: int, w: int, b: App) -> bool {
    match a.drag {
        None => b == a,
        Some(DragTarget::MountSep) => b == App {
            prefs: Prefs {
                col_mount_w: clamp(sat_sub(x, l.margin + 3), 8, sat_sub(l.inner_w as int, 20)) as u16,
                ..a.prefs
            },
            ..a
        },
        Some(DragTarget::BarEndSep) => b == App {
            prefs: Prefs {
                col_bar_end_w: clamp(sat_sub(w, l.margin + x + 1), 5, (l.inner_w / 2) as int) as u16,
                ..a.prefs
            },
            ..a
        },
        Some(DragTarget::PctSep) => b == App {
            prefs: Prefs {
                col_pct_w: clamp(sat_sub(x, l.right_start as int), 4, sat_sub(l.right_w as int, 6)) as u16,
                ..a.prefs
            },
            ..a
        },
    }
}

/// The wheel moves the highlight one row down (`down`) or up, in the drill-down listing
/// or in the disk listing (from nothing, to the top).
pub open spec fn wheel_step(a: App, down: bool, b: App) -> bool {
    if a.drill.mode == ViewMode::DrillDown {
        let n = a.drill.entries@.len() as int;
        let sel = a.drill.selected as int;
        if down {
            if n > 0 {
                b == App { drill: crate::app::DrillState { selected: min_int(sel + 1, n - 1) as usize, ..a.drill }, ..a }
            } else {
                b == a
            }
        } else {
            b == App { drill: crate::app::DrillState { selected: sat_sub(sel, 1) as usize, ..a.drill }, ..a }
        }
    } else {
        let count = a.sorted_cache@.len() as int;
        if count == 0 {
            b == a
        } else {
            b == App {
                selected: Some(
                    match a.selected {
                        Some(i) => if down { min_int(i + 1, count - 1) } else { sat_sub(i as int, 1) },
                        None => 0,
                    } as usize,
                ),
                ..a
            }
        }
    }
}

/// Whether a tooltip can show where the mouse is: on a drill-down entry, or on any
/// part of the disk view but empty space.
pub open spec fn hover_target(a: App, h: int) -> bool {
    match a.hover.pos {
        None => false,
        Some(p) => if a.drill.mode == ViewMode::DrillDown {
            let y = p.1 as int;
            let first = (if a.prefs.show_border { 1int } else { 0int }) + 4;
            y >= first && y - first < a.drill.entries@.len()
        } else {
            zone_at(a.prefs, a.hover.pos, h, a.sorted_cache@.len() as int) != HoverZone::Outside
        },
    }
}

/// The events outside the theme chooser (see the predicates above); releasing a
/// dragged separator saves its width; a right click shows the tooltip at once; a move
/// to a new position starts the tooltip's timer where a tooltip can show.
pub open spec fn view_mouse_step(
    a: App,
    moved: bool,
    kind: MouseKind,
    x: int,
    y: int,
    w: int,
    h: int,
    now: u64,
    b: App,
    eff: KeyEffect,
) -> bool {
    let l = layout_of(a, w);
    if kind == MouseKind::LeftDown {
        left_click_step(a, l, x, y, b, eff)
    } else if kind == MouseKind::LeftDrag {
        drag_step(a, l, x, w, b) && eff is Nothing
    } else if kind == MouseKind::LeftUp {
        if a.drag is Some { b == App { drag: None, ..a } && saving(a, eff) } else { b == a && eff is Nothing }
    } else if kind == MouseKind::RightDown {
        &&& b == App {
            hover: HoverState { pos: Some((x as u16, y as u16)), since_ms: Some((now - 2000) as u64), right_click: true },
            ..a
        }
        &&& eff is Nothing
    } else if kind == MouseKind::Moved {
        &&& if moved && hover_target(a, h) {
            b == App { hover: HoverState { since_ms: Some(now), ..a.hover }, ..a }
        } else {
            b == a
        }
        &&& eff is Nothing
    } else if kind == MouseKind::ScrollDown {
        wheel_step(a, true, b) && eff is Nothing
    } else if kind == MouseKind::ScrollUp {
        wheel_step(a, false, b) && eff is Nothing
    } else {
        b == a && eff is Nothing
    }
}

/// What a mouse event decides, the listing aside: after the move is noted (see
/// `after_move`), the theme chooser takes the event while it is open, the rest of the
/// interface otherwise.
pub open spec fn mouse_decision(
    a: App,
    kind: MouseKind,
    x: u16,
    y: u16,
    w: u16,
    h: u16,
    now: u64,
    b: App,
    eff: KeyEffect,
) -> bool {
    let moved = kind == MouseKind::Moved && a.hover.pos != Some((x, y));
    let a1 = after_move(a, kind, x, y);
    if a.theme_chooser.active {
        chooser_mouse_step(a1, kind, x as int, y as int, w as int, h as int, b) && eff is Nothing
    } else {
        view_mouse_step(a1, moved, kind, x as int, y as int, w as int, h as int, now, b, eff)
    }
}

/// What a mouse event does: what it decides (see `mouse_decision`), after which the
/// listing is recomputed from the new preferences (see `relisted`).
pub open spec fn mouse_step(
    a: App,
    kind: MouseKind,
    x: u16,
    y: u16,
    w: u16,
    h: u16,
    now: u64,
    b: App,
    eff: KeyEffect,
) -> bool {
    let m = App { sorted_cache: a.sorted_cache, ..b };
    mouse_decision(a, kind, x, y, w, h, now, m, eff) && relisted(m, b)
}

/// Whether `(x0, y0, bw, bh)` is the theme chooser's popup (left, top, width, height).
pub open spec fn is_popup(a: App, w: int, h: int, x0: int, y0: int, bw: int, bh: int) -> bool {
    x0 == popup_x0(w) && y0 == popup_y0(a, h) && bw == popup_w(w) && bh == popup_h(a, h)
}

/// A click on an entry of the popup.
proof fn lemma_click_entry(a: App, x: int, y: int, w: int, h: int, x0: int, y0: int, bw: int, bh: int, b: App)
    requires
        is_popup(a, w, h, x0, y0, bw, bh),
        x > x0 && x + 1 < x0 + bw && y >= y0 + 2 && y + 2 < y0 + bh,
        popup_scroll(a, h) + (y - (y0 + 2)) < theme_count(a) ==> chooser_moved(
            a,
            popup_scroll(a, h) + (y - (y0 + 2)),
            b,
        ),
        popup_scroll(a, h) + (y - (y0 + 2)) >= theme_count(a) ==> b == a,
    ensures
        chooser_click_step(a, x, y, w, h, b),
{
    reveal(chooser_click_step);
}

/// A click outside the popup.
proof fn lemma_click_outside(a: App, x: int, y: int, w: int, h: int, x0: int, y0: int, bw: int, bh: int, b: App)
    requires
        is_popup(a, w, h, x0, y0, bw, bh),
        !(x > x0 && x + 1 < x0 + bw && y >= y0 + 2 && y + 2 < y0 + bh),
        x < x0 || x >= x0 + bw || y < y0 || y >= y0 + bh,
        b == (App {
            prefs: Prefs {
                color_mode: a.theme_chooser.orig_color_mode,
                active_theme: a.theme_chooser.orig_active_theme,
                ..a.prefs
            },
            theme_chooser: ThemeChooser { active: false, ..a.theme_chooser },
            ..a
        }),
    ensures
        chooser_click_step(a, x, y, w, h, b),
{
    reveal(chooser_click_step);
}

/// A click on the popup's frame.
proof fn lemma_click_border(a: App, x: int, y: int, w: int, h: int, x0: int, y0: int, bw: int, bh: int)
    requires
        is_popup(a, w, h, x0, y0, bw, bh),
        !(x > x0 && x + 1 < x0 + bw && y >= y0 + 2 && y + 2 < y0 + bh),
        !(x < x0 || x >= x0 + bw || y < y0 || y >= y0 + bh),
    ensures
        chooser_click_step(a, x, y, w, h, a),
{
    reveal(chooser_click_step);
}

impl App {
    /// Where the disk table's columns lie in a window `w` cells wide (see `layout_of`).
    pub fn column_layout(&self, w: u16) -> (l: ColumnLayout)
        requires
            self.prefs.col_mount_w > 0 ==> sat_sub(w as int, 2 * (if self.prefs.show_border { 1int } else { 0int })) >= 28,
            (if self.prefs.show_border { 1int } else { 0int }) + right_col_for(self.prefs, self.sorted_cache@) + 1 <= 65535,
            sat_sub(w as int, (if self.prefs.show_border { 1int } else { 0int }) + right_col_for(self.prefs, self.sorted_cache@))
                + pct_col(self.prefs) <= 65535,
        ensures
            l == layout_of(*self, w as int),
    {
        let m: u16 = if self.prefs.show_border { 1 } else { 0 };
        let inner_w = w.saturating_sub(m + m);
        let mount_w = mount_col_width(inner_w, &self.prefs);
        let mount_sep_x = m + 3 + mount_w as u16;
        let right_w = right_col_width(self);
        let bar_end_x = w.saturating_sub(m + right_w + 1);
        let pct_w: u16 = if self.prefs.col_pct_w > 0 { self.prefs.col_pct_w } else { 5 };
        let right_start = w.saturating_sub(m + right_w);
        let pct_sep_x = right_start + pct_w;
        let header_row: u16 = if self.prefs.show_border { 3 } else { 2 };
        ColumnLayout { margin: m, inner_w, mount_sep_x, right_w, bar_end_x, right_start, pct_sep_x, header_row }
    }

    /// Notes a mouse move to `(x, y)` (see `after_move`); returns whether the position
    /// changed.
    fn note_move(&mut self, kind: MouseKind, x: u16, y: u16) -> (moved: bool)
        ensures
            *final(self) == after_move(*old(self), kind, x, y),
            moved == (kind == MouseKind::Moved && old(self).hover.pos != Some((x, y))),
    {
        if kind == MouseKind::Moved {
            let same = match self.hover.pos {
                Some(p) => p.0 == x && p.1 == y,
                None => false,
            };
            if !same {
                self.hover.pos = Some((x, y));
                self.hover.since_ms = None;
                self.hover.right_click = false;
                return true;
            }
        }
        false
    }

    /// Highlights chooser entry `s` and previews it.
    fn chooser_pick(&mut self, s: usize)
        ensures
            final(self).sorted_cache == old(self).sorted_cache,
            chooser_moved(*old(self), s as int, *final(self)),
    {
        self.theme_chooser.selected = s;
        self.apply_selected_theme();
        proof {
            reveal(chooser_moved);
        }
    }

    /// The theme chooser's popup in a window `w` by `h`: its left column, top row, width
    /// and height, and how many entries are scrolled off its top.
    fn popup_box(&self, w: u16, h: u16) -> (r: (u16, u16, u16, u16, usize))
        requires
            h >= 8,
            theme_count(*self) % 65536 <= 65531,
            self.theme_chooser.selected < 0x4000_0000,
        ensures
            r.0 == popup_x0(w as int),
            r.1 == popup_y0(*self, h as int),
            r.2 == popup_w(w as int),
            r.3 == popup_h(*self, h as int),
            r.4 == popup_scroll(*self, h as int),
            r.4 <= 0x4000_0000,
            r.0 + r.2 <= w,
            r.1 + r.3 <= h,
            r.3 >= 4,
            w >= 2 ==> r.0 + r.2 >= 1,
    {
        let n = self.all_themes().len();
        let box_w: u16 = if w.saturating_sub(4) < 50 { w.saturating_sub(4) } else { 50 };
        let n16 = (n % 65536) as u16;
        let box_h: u16 = if n16 + 4 < h.saturating_sub(4) { n16 + 4 } else { h.saturating_sub(4) };
        let x0 = w.saturating_sub(box_w) / 2;
        let y0 = h.saturating_sub(box_h) / 2;
        let visible = (box_h - 4) as usize;
        let sel = self.theme_chooser.selected;
        let scroll = if sel >= visible { sel - visible + 1 } else { 0 };
        (x0, y0, box_w, box_h, scroll)
    }

    /// A click while the theme chooser is open (see `chooser_click_step`).
    #[verifier::spinoff_prover]
    fn chooser_click(&mut self, x: u16, y: u16, w: u16, h: u16)
        requires
            h >= 8,
            theme_count(*old(self)) % 65536 <= 65531,
            old(self).theme_chooser.selected < 0x4000_0000,
            !(w <= 1 && x >= 1),
        ensures
            chooser_click_step(*old(self), x as int, y as int, w as int, h as int, *final(self)),
    {
        let ghost a = *self;
        let n = self.all_themes().len();
        let (x0, y0, box_w, box_h, scroll) = self.popup_box(w, h);
        let (xx, yy, x0w, y0w, bw, bh) = (x as u32, y as u32, x0 as u32, y0 as u32, box_w as u32, box_h as u32);
        let on_entry = xx > x0w && xx + 1 < x0w + bw && yy >= y0w + 2 && yy + 2 < y0w + bh;
        let outside = xx < x0w || xx >= x0w + bw || yy < y0w || yy >= y0w + bh;
        let ghost (ix0, iy0, ibw, ibh) = (x0 as int, y0 as int, box_w as int, box_h as int);
        if on_entry {
            let idx = scroll + (yy - (y0w + 2)) as usize;
            if idx < n {
                self.chooser_pick(idx);
            }
            proof {
                lemma_click_entry(a, x as int, y as int, w as int, h as int, ix0, iy0, ibw, ibh, *self);
            }
        } else if outside {
            self.popup_cancel();
            proof {
                lemma_click_outside(a, x as int, y as int, w as int, h as int, ix0, iy0, ibw, ibh, *self);
            }
        } else {
            proof {
                lemma_click_border(a, x as int, y as int, w as int, h as int, ix0, iy0, ibw, ibh);
            }
        }
    }

    /// Closes the theme chooser and restores the theme in force when it opened.
    fn popup_cancel(&mut self)
        ensures
            *final(self) == (App {
                prefs: Prefs {
                    color_mode: old(self).theme_chooser.orig_color_mode,
                    active_theme: old(self).theme_chooser.orig_active_theme,
                    ..old(self).prefs
                },
                theme_chooser: ThemeChooser { active: false, ..old(self).theme_chooser },
                ..*old(self)
            }),
    {
        self.prefs.color_mode = self.theme_chooser.orig_color_mode;
        self.prefs.active_theme = match &self.theme_chooser.orig_active_theme {
            Some(t) => Some(t.clone()),
            None => None,
        };
        self.theme_chooser.active = false;
    }

    /// A mouse event while the theme chooser is open (see `chooser_mouse_step`).
    fn chooser_mouse(&mut self, kind: MouseKind, x: u16, y: u16, w: u16, h: u16)
        requires
            h >= 8,
            theme_count(*old(self)) % 65536 <= 65531,
            old(self).theme_chooser.selected < 0x4000_0000,
            !(kind == MouseKind::LeftDown && w <= 1 && x >= 1),
        ensures
            final(self).sorted_cache == old(self).sorted_cache,
            chooser_mouse_step(*old(self), kind, x as int, y as int, w as int, h as int, *final(self)),
    {
        if kind == MouseKind::LeftDown {
            let ghost a = *self;
            self.chooser_click(x, y, w, h);
            proof {
                lemma_click_keeps_listing(a, x as int, y as int, w as int, h as int, *self);
            }
            return;
        }
        let n = self.all_themes().len();
        let sel = self.theme_chooser.selected;
        if kind == MouseKind::ScrollDown {
            let s = if sel + 1 < n - 1 { sel + 1 } else { n - 1 };
            self.chooser_pick(s);
        } else if kind == MouseKind::ScrollUp {
            self.chooser_pick(sel.saturating_sub(1));
        }
    }
}

/// The sort chosen by a click at column `x` of the header (see `header_sort_at`).
fn sort_at(p: &Prefs, l: ColumnLayout, x: u16) -> (r: Option<SortMode>)
    ensures
        r == header_sort_at(*p, l, x as int),
{
    if x >= l.margin && x < l.mount_sep_x {
        Some(SortMode::Name)
    } else if x > l.bar_end_x && x < l.right_start {
        None
    } else if x >= l.right_start && x < l.pct_sep_x {
        Some(SortMode::Pct)
    } else if p.show_used && x > l.pct_sep_x {
        Some(SortMode::Size)
    } else {
        None
    }
}

impl App {
    /// A left click outside the theme chooser (see `left_click_step`).
    #[verifier::spinoff_prover]
    fn left_click(&mut self, l: ColumnLayout, x: u16, y: u16) -> (eff: KeyEffect)
        requires
            old(self).sorted_cache@.len() < 0x4000_0000,
        ensures
            left_click_step(*old(self), l, x as int, y as int, *final(self), eff),
    {
        let near = |a: u16, b: u16| -> (r: bool)
            ensures
                r == (dist(a as int, b as int) <= 1),
            { if a >= b { a - b <= 1 } else { b - a <= 1 } };
        if near(x, l.mount_sep_x) {
            self.drag = Some(DragTarget::MountSep);
            return KeyEffect::Nothing;
        }
        if self.prefs.show_used && near(x, l.pct_sep_x) {
            self.drag = Some(DragTarget::PctSep);
            return KeyEffect::Nothing;
        }
        if near(x, l.bar_end_x) {
            self.drag = Some(DragTarget::BarEndSep);
            return KeyEffect::Nothing;
        }
        if self.prefs.show_header && y == l.header_row {
            return self.header_click(l, x);
        }
        self.row_click(y)
    }

    /// A click on the header at column `x`: sorts by the column under it.
    #[verifier::spinoff_prover]
    fn header_click(&mut self, l: ColumnLayout, x: u16) -> (eff: KeyEffect)
        ensures
            match header_sort_at(old(self).prefs, l, x as int) {
                Some(m) => *final(self) == (App { prefs: sorted_by(old(self).prefs, m), ..*old(self) }) && saving(*old(self), eff),
                None => *final(self) == *old(self) && eff is Nothing,
            },
    {
        match sort_at(&self.prefs, l, x) {
            Some(m) => {
                self.sort_by_column(m);
                if self.test_mode { KeyEffect::Nothing } else { KeyEffect::Save }
            },
            None => KeyEffect::Nothing,
        }
    }

    /// Sorts by `mode` (see `sorted_by`).
    fn sort_by_column(&mut self, mode: SortMode)
        ensures
            *final(self) == (App { prefs: sorted_by(old(self).prefs, mode), ..*old(self) }),
    {
        let same = self.prefs.sort_mode == mode;
        let rev = if same { !self.prefs.sort_rev } else { false };
        self.prefs.sort_mode = mode;
        self.prefs.sort_rev = rev;
    }

    /// A click on row `y` below the header: highlights the disk there, or drills into
    /// it when it is highlighted already.
    #[verifier::spinoff_prover]
    fn row_click(&mut self, y: u16) -> (eff: KeyEffect)
        requires
            old(self).sorted_cache@.len() < 0x4000_0000,
        ensures
            ({
                let a = *old(self);
                let b = *final(self);
                let first = first_disk_row(a.prefs);
                let count = a.sorted_cache@.len() as int;
                if y >= first && y - first < count {
                    if a.selected == Some((y - first) as usize) {
                        drill_opened(a, b, eff)
                    } else {
                        b == App { selected: Some((y - first) as usize), ..a } && eff is Nothing
                    }
                } else {
                    b == a && eff is Nothing
                }
            }),
    {
        let first: u16 = if self.prefs.show_border { 1 } else { 0 } + 2 + if self.prefs.show_header { 2 } else { 0 };
        if y >= first {
            let idx = (y - first) as usize;
            if idx < self.sorted_cache.len() {
                if self.selected == Some(idx) {
                    return self.drill_into_highlight();
                } else {
                    self.selected = Some(idx);
                }
            }
        }
        KeyEffect::Nothing
    }

    /// Dragging the held separator to column `x` (see `drag_step`).
    #[verifier::spinoff_prover]
    fn drag_to(&mut self, l: ColumnLayout, x: u16, w: u16)
        requires
            l.margin <= 1,
            old(self).drag == Some(DragTarget::MountSep) ==> l.inner_w >= 28,
            old(self).drag == Some(DragTarget::BarEndSep) ==> l.inner_w / 2 >= 5 && l.margin + x + 1 <= 65535,
            old(self).drag == Some(DragTarget::PctSep) ==> l.right_w >= 10,
        ensures
            drag_step(*old(self), l, x as int, w as int, *final(self)),
    {
        match self.drag {
            None => {},
            Some(DragTarget::MountSep) => {
                let nw = x.saturating_sub(l.margin + 3);
                let mx = l.inner_w - 20;
                self.prefs.col_mount_w = if nw < 8 { 8 } else if nw > mx { mx } else { nw };
            },
            Some(DragTarget::BarEndSep) => {
                let nr = w.saturating_sub(l.margin + x + 1);
                let mx = l.inner_w / 2;
                self.prefs.col_bar_end_w = if nr < 5 { 5 } else if nr > mx { mx } else { nr };
            },
            Some(DragTarget::PctSep) => {
                let np = x.saturating_sub(l.right_start);
                let mx = l.right_w - 6;
                self.prefs.col_pct_w = if np < 4 { 4 } else if np > mx { mx } else { np };
            },
        }
    }

    /// The wheel (see `wheel_step`).
    #[verifier::spinoff_prover]
    fn wheel(&mut self, down: bool)
        requires
            old(self).sorted_cache@.len() < 0x4000_0000,
            old(self).selected matches Some(i) ==> i < 0x4000_0000,
            old(self).drill.selected < usize::MAX,
        ensures
            wheel_step(*old(self), down, *final(self)),
    {
        if self.drill.mode == ViewMode::DrillDown {
            let n = self.drill.entries.len();
            let sel = self.drill.selected;
            if down {
                if n > 0 {
                    self.drill.selected = if sel + 1 < n - 1 { sel + 1 } else { n - 1 };
                }
            } else {
                self.drill.selected = sel.saturating_sub(1);
            }
        } else {
            let count = self.sorted_cache.len();
            if count > 0 {
                let s = match self.selected {
                    Some(i) => if down {
                        if i + 1 < count - 1 { i + 1 } else { count - 1 }
                    } else {
                        i.saturating_sub(1)
                    },
                    None => 0,
                };
                self.selected = Some(s);
            }
        }
    }

    /// Whether a tooltip can show where the mouse is (see `hover_target`).
    fn over_hover_target(&self, h: u16) -> (r: bool)
        ensures
            r == hover_target(*self, h as int),
    {
        if self.hover.pos.is_none() {
            return false;
        }
        if self.drill.mode == ViewMode::DrillDown {
            self.hovered_drill_index().is_some()
        } else {
            self.hovered_zone(h) != HoverZone::Outside
        }
    }
}

impl App {
    /// A mouse event outside the theme chooser (see `view_mouse_step`); `moved` tells
    /// whether the event moved the mouse to a new position.
    #[verifier::spinoff_prover]
    fn view_mouse(&mut self, moved: bool, kind: MouseKind, x: u16, y: u16, w: u16, h: u16, now: u64) -> (eff: KeyEffect)
        requires
            !old(self).theme_chooser.active,
            mouse_ready(*old(self), kind, x, y, w, h, now),
        ensures
            view_mouse_step(*old(self), moved, kind, x as int, y as int, w as int, h as int, now, *final(self), eff),
    {
        let l = self.column_layout(w);
        if kind == MouseKind::LeftDown {
            return self.left_click(l, x, y);
        }
        if kind == MouseKind::LeftDrag {
            self.drag_to(l, x, w);
            return KeyEffect::Nothing;
        }
        if kind == MouseKind::LeftUp {
            if self.drag.is_some() {
                self.drag = None;
                return if self.test_mode { KeyEffect::Nothing } else { KeyEffect::Save };
            }
            return KeyEffect::Nothing;
        }
        if kind == MouseKind::RightDown {
            self.hover = HoverState { pos: Some((x, y)), since_ms: Some(now - 2000), right_click: true };
            return KeyEffect::Nothing;
        }
        if kind == MouseKind::Moved {
            if moved && self.over_hover_target(h) {
                self.hover.since_ms = Some(now);
            }
            return KeyEffect::Nothing;
        }
        if kind == MouseKind::ScrollDown {
            self.wheel(true);
        } else if kind == MouseKind::ScrollUp {
            self.wheel(false);
        }
        KeyEffect::Nothing
    }
    /// Whether the state and the event are ones that `handle_mouse` takes (see
    /// `mouse_ready`).
    pub fn accepts_mouse(&self, kind: MouseKind, x: u16, y: u16, w: u16, h: u16, now_ms: u64) -> (r: bool)
        ensures
            r == mouse_ready(*self, kind, x, y, w, h, now_ms),
    {
        if self.theme_chooser.active {
            let count: u128 = 30 + self.prefs.custom_themes.len() as u128;
            h >= 8 && count % 65536 <= 65531 && self.theme_chooser.selected < 0x4000_0000 && !(kind
                == MouseKind::LeftDown && w <= 1 && x >= 1)
        } else {
            let m: u64 = if self.prefs.show_border { 1 } else { 0 };
            let inner_w: u64 = if w as u64 >= 2 * m { w as u64 - 2 * m } else { 0 };
            let right_w = right_col_width(self) as u64;
            let pct: u64 = if self.prefs.col_pct_w > 0 { self.prefs.col_pct_w as u64 } else { 5 };
            let rest: u64 = if w as u64 >= m + right_w { w as u64 - m - right_w } else { 0 };
            let drag_ok = if kind == MouseKind::LeftDrag {
                match self.drag {
                    Some(DragTarget::MountSep) => inner_w >= 28,
                    Some(DragTarget::BarEndSep) => inner_w / 2 >= 5 && m + x as u64 + 1 <= 65535,
                    Some(DragTarget::PctSep) => right_w >= 10,
                    None => true,
                }
            } else {
                true
            };
            (self.prefs.col_mount_w == 0 || inner_w >= 28) && m + right_w + 1 <= 65535 && rest + pct <= 65535
                && self.sorted_cache.len() < 0x4000_0000 && match self.selected {
                Some(i) => i < 0x4000_0000,
                None => true,
            } && self.drill.selected < usize::MAX && drag_ok && (kind != MouseKind::RightDown || now_ms >= 2000)
        }
    }

    /// Handles a mouse event of kind `kind` at column `x` and row `y` of a window `w`
    /// by `h`, at time `now_ms` (see `mouse_step`), and returns the outside work it asks
    /// for.
    pub fn handle_mouse(&mut self, kind: MouseKind, x: u16, y: u16, w: u16, h: u16, now_ms: u64) -> (eff: KeyEffect)
        requires
            mouse_ready(*old(self), kind, x, y, w, h, now_ms),
        ensures
            mouse_step(*old(self), kind, x, y, w, h, now_ms, *final(self), eff),
    {
        let eff = self.decide_mouse(kind, x, y, w, h, now_ms);
        self.relist();
        eff
    }

    /// What a mouse event decides (see `mouse_decision`).
    fn decide_mouse(&mut self, kind: MouseKind, x: u16, y: u16, w: u16, h: u16, now_ms: u64) -> (eff: KeyEffect)
        requires
            mouse_ready(*old(self), kind, x, y, w, h, now_ms),
        ensures
            mouse_decision(*old(self), kind, x, y, w, h, now_ms, *final(self), eff),
            final(self).sorted_cache == old(self).sorted_cache,
    {
        let moved = self.note_move(kind, x, y);
        if self.theme_chooser.active {
            self.chooser_mouse(kind, x, y, w, h);
            return KeyEffect::Nothing;
        }
        self.view_mouse(moved, kind, x, y, w, h, now_ms)
    }
}

} // verus!
