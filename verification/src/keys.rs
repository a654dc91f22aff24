//! What a key press does: the decisions of the keyboard interface, as a step from
//! state and key to the next state and the outside work it asks for.
//!
//! The caller reads the keyboard and the clock, performs the requested work (saving
//! the preferences, scanning a directory, opening a path, copying to the clipboard,
//! writing the report) and reports the outcome back where one is awaited.
use vstd::prelude::*;
use vstd::string::StringExecFns;
use crate::app::{
    all_sortable, choose_theme, is_drill_order, is_theme_list, lemma_listing_len, listing_ok, sat_sub, sortable, App,
    DrillState,
    FilterState, ThemeChooser, ThemeEditState,
};
use crate::palette::{palette_for_prefs, prefs_palette, set_custom_theme, stores_theme};
use crate::prefs::Prefs;
use crate::text::{str_chars, string_from_chars};
use crate::types::{
    bar_next, color_key, unit_next, DirEntry, DiskEntry, DrillSortMode, SortMode, ThemeColors, ViewMode,
};

verus! {

/// A key, as the interface tells keys apart.
#[derive(Clone, Copy, Debug, PartialEq, Eq, Structural)]
pub enum Key {
    Char(char),
    Enter,
    Esc,
    Backspace,
    Delete,
    Home,
    End,
    Left,
    Right,
    Up,
    Down,
    /// Any other key.
    Other,
}

/// Outside work that a key press asks for.
#[derive(Debug)]
pub enum KeyEffect {
    /// Nothing to do.
    Nothing,
    /// Persist the preferences.
    Save,
    /// Scan this directory for the drill-down view and report with `scan_done`.
    Scan(String),
    /// Open this path with the desktop's file opener.
    Open(String),
    /// Copy this mount point to the clipboard and report with `copy_done`.
    Copy(String),
    /// Write the listing report and report with `export_done`.
    Export,
}

// ─── Line editing ───────────────────────────────────────────────────────────

/// Whether `c` has Unicode's White_Space property (what `char::is_whitespace` tests).
pub open spec fn is_white_space(c: char) -> bool {
    let u = c as u32;
    (0x9 <= u && u <= 0xd) || u == 0x20 || u == 0x85 || u == 0xa0 || u == 0x1680 || (0x2000 <= u
        && u <= 0x200a) || u == 0x2028 || u == 0x2029 || u == 0x202f || u == 0x205f || u == 0x3000
}

/// Whether `c` is white space (see `is_white_space`).
pub fn white_space(c: char) -> (r: bool)
    ensures
        r == is_white_space(c),
{
    let u = c as u32;
    (0x9 <= u && u <= 0xd) || u == 0x20 || u == 0x85 || u == 0xa0 || u == 0x1680 || (0x2000 <= u
        && u <= 0x200a) || u == 0x2028 || u == 0x2029 || u == 0x202f || u == 0x205f || u == 0x3000
}

/// Length of `s` without its trailing white space.
pub open spec fn trimmed_len(s: Seq<char>) -> nat
    decreases s.len(),
{
    if s.len() > 0 && is_white_space(s.last()) {
        trimmed_len(s.drop_last())
    } else {
        s.len()
    }
}

/// Number of leading white-space characters of `s`.
pub open spec fn leading_space(s: Seq<char>) -> nat
    decreases s.len(),
{
    if s.len() > 0 && is_white_space(s[0]) {
        1 + leading_space(s.drop_first())
    } else {
        0
    }
}

/// `s` without leading and trailing white space.
pub open spec fn trim(s: Seq<char>) -> Seq<char> {
    let t = s.subrange(0, trimmed_len(s) as int);
    t.subrange(leading_space(t) as int, t.len() as int)
}

/// The position just after the last space of `s`, or 0 when there is none.
pub open spec fn after_last_space(s: Seq<char>) -> nat
    decreases s.len(),
{
    if s.len() == 0 {
        0
    } else if s.last() == ' ' {
        s.len()
    } else {
        after_last_space(s.drop_last())
    }
}

/// Where the word before the cursor begins: past the last space of the text before
/// the cursor once its trailing white space is set aside.
pub open spec fn word_start(before: Seq<char>) -> nat {
    after_last_space(before.subrange(0, trimmed_len(before) as int))
}

/// `s` without the characters in positions `from` to `to`.
pub open spec fn cut(s: Seq<char>, from: int, to: int) -> Seq<char> {
    s.subrange(0, from) + s.subrange(to, s.len() as int)
}

/// One step of editing a line of text: the new text and cursor after the key.
/// `Enter` and `Esc` are not editing keys and leave the line as it is.
pub open spec fn edit_line(buf: Seq<char>, cur: int, key: Key, ctrl: bool) -> (Seq<char>, int) {
    let len = buf.len() as int;
    let back = if cur > 0 { (buf.remove(cur - 1), cur - 1) } else { (buf, cur) };
    let left = (buf, sat_sub(cur, 1));
    let right = (buf, if cur + 1 < len { cur + 1 } else { len });
    match key {
        Key::Backspace => back,
        Key::Delete => if cur < len { (buf.remove(cur), cur) } else { (buf, cur) },
        Key::Home => (buf, 0),
        Key::End => (buf, len),
        Key::Left => left,
        Key::Right => right,
        Key::Char(c) => if ctrl && c == 'w' {
            if cur > 0 {
                let ws = word_start(buf.subrange(0, cur)) as int;
                (cut(buf, ws, cur), ws)
            } else {
                (buf, cur)
            }
        } else if ctrl && c == 'u' {
            (buf.subrange(cur, len), 0)
        } else if ctrl && c == 'k' {
            (buf.subrange(0, cur), cur)
        } else if ctrl && c == 'a' {
            (buf, 0)
        } else if ctrl && c == 'e' {
            (buf, len)
        } else if ctrl && c == 'b' {
            left
        } else if ctrl && c == 'f' {
            right
        } else if ctrl && c == 'h' {
            back
        } else {
            (buf.insert(cur, c), cur + 1)
        },
        _ => (buf, cur),
    }
}

/// `v` without the characters in positions `from` to `to`.
fn cut_chars(v: &Vec<char>, from: usize, to: usize) -> (r: Vec<char>)
    requires
        from <= to <= v@.len(),
    ensures
        r@ == cut(v@, from as int, to as int),
{
    let mut r: Vec<char> = Vec::new();
    let mut i: usize = 0;
    while i < from
        invariant
            from <= to <= v@.len(),
            i <= from,
            r@ == v@.subrange(0, i as int),
        decreases from - i,
    {
        r.push(v[i]);
        i = i + 1;
        assert(r@ =~= v@.subrange(0, i as int));
    }
    let mut j: usize = to;
    while j < v.len()
        invariant
            from <= to <= j <= v@.len(),
            r@ == v@.subrange(0, from as int) + v@.subrange(to as int, j as int),
        decreases v@.len() - j,
    {
        r.push(v[j]);
        j = j + 1;
        assert(r@ =~= v@.subrange(0, from as int) + v@.subrange(to as int, j as int));
    }
    r
}

/// Where the word before position `cur` of `v` begins (see `word_start`).
fn word_start_at(v: &Vec<char>, cur: usize) -> (r: usize)
    requires
        cur <= v@.len(),
    ensures
        r == word_start(v@.subrange(0, cur as int)),
        r <= cur,
{
    let ghost before = v@.subrange(0, cur as int);
    let mut t: usize = cur;
    while t > 0 && white_space(v[t - 1])
        invariant
            t <= cur <= v@.len(),
            before == v@.subrange(0, cur as int),
            trimmed_len(before) == trimmed_len(v@.subrange(0, t as int)),
        decreases t,
    {
        assert(v@.subrange(0, t as int).drop_last() =~= v@.subrange(0, t - 1));
        t = t - 1;
    }
    assert(trimmed_len(v@.subrange(0, t as int)) == t);
    assert(before.subrange(0, t as int) =~= v@.subrange(0, t as int));
    let mut j: usize = t;
    while j > 0 && v[j - 1] != ' '
        invariant
            j <= t <= cur <= v@.len(),
            after_last_space(v@.subrange(0, t as int)) == after_last_space(v@.subrange(0, j as int)),
        decreases j,
    {
        assert(v@.subrange(0, j as int).drop_last() =~= v@.subrange(0, j - 1));
        j = j - 1;
    }
    j
}

/// One editing step on a line (see `edit_line`).
pub fn edit_line_step(buf: &mut Vec<char>, cursor: &mut usize, key: Key, ctrl: bool)
    requires
        *old(cursor) <= old(buf)@.len(),
    ensures
        (final(buf)@, *final(cursor) as int) == edit_line(old(buf)@, *old(cursor) as int, key, ctrl),
        *final(cursor) <= final(buf)@.len(),
{
    let cur = *cursor;
    let len = buf.len();
    match key {
        Key::Backspace => {
            if cur > 0 {
                buf.remove(cur - 1);
                *cursor = cur - 1;
            }
        },
        Key::Delete => {
            if cur < len {
                buf.remove(cur);
            }
        },
        Key::Home => {
            *cursor = 0;
        },
        Key::End => {
            *cursor = len;
        },
        Key::Left => {
            *cursor = cur.saturating_sub(1);
        },
        Key::Right => {
            *cursor = if cur < len { cur + 1 } else { len };
        },
        Key::Char(c) => {
            if ctrl && c == 'w' {
                if cur > 0 {
                    let ws = word_start_at(buf, cur);
                    let r = cut_chars(buf, ws, cur);
                    *buf = r;
                    *cursor = ws;
                }
            } else if ctrl && c == 'u' {
                let r = cut_chars(buf, 0, cur);
                assert(r@ =~= old(buf)@.subrange(cur as int, len as int));
                *buf = r;
                *cursor = 0;
            } else if ctrl && c == 'k' {
                buf.truncate(cur);
                assert(buf@ =~= old(buf)@.subrange(0, cur as int));
            } else if ctrl && c == 'a' {
                *cursor = 0;
            } else if ctrl && c == 'e' {
                *cursor = len;
            } else if ctrl && c == 'b' {
                *cursor = cur.saturating_sub(1);
            } else if ctrl && c == 'f' {
                *cursor = if cur < len { cur + 1 } else { len };
            } else if ctrl && c == 'h' {
                if cur > 0 {
                    buf.remove(cur - 1);
                    *cursor = cur - 1;
                }
            } else {
                buf.insert(cur, c);
                let n = buf.len();
                assert(cur < n);
                *cursor = cur + 1;
            }
        },
        _ => {},
    }
}

// ─── The state machine ──────────────────────────────────────────────────────

/// What the key handlers need of the state: the cursor within the line being edited,
/// the open palette editor on one of its six slots, custom theme names all different,
/// and room to move the highlights. The mounts, the listing and the highlighted row
/// stay below 2^30, far more mounts than a 32-bit address space can hold, so that the
/// moves of the highlight by pages cannot overflow on any target.
pub open spec fn keys_ready(a: App) -> bool {
    &&& a.filter.active ==> a.filter.cursor <= a.filter.buf@.len()
    &&& a.theme_edit.naming ==> a.theme_edit.cursor <= a.theme_edit.name@.len()
    &&& a.theme_edit.active ==> a.theme_edit.slot < 6
    &&& a.prefs.wf()
    &&& a.disks@.len() < 0x4000_0000
    &&& a.sorted_cache@.len() < 0x4000_0000
    &&& (a.selected matches Some(i) ==> i < 0x4000_0000)
    &&& a.theme_chooser.selected < usize::MAX
    &&& a.drill.selected < usize::MAX
}

/// The preferences are saved unless the app runs in test mode.
pub open spec fn saving(a: App, eff: KeyEffect) -> bool {
    if a.test_mode { eff is Nothing } else { eff is Save }
}

/// The status line shows `text`, set at `now`.
pub open spec fn status_is(b: App, text: Seq<char>, now: u64) -> bool {
    b.status_msg matches Some(m) && m.0@ == text && m.1 == now
}

/// `min(a, b)`.
pub open spec fn min_int(a: int, b: int) -> int {
    if a <= b { a } else { b }
}

/// Editing the filter line: Enter keeps the filter, Esc restores the one in force when
/// editing began, and every other key edits the line (see `edit_line`), whose text
/// becomes the filter at once.
pub open spec fn filter_step(a: App, key: Key, ctrl: bool, b: App) -> bool {
    let f = a.filter;
    if key == Key::Enter {
        b == App { filter: FilterState { active: false, ..f }, ..a }
    } else if key == Key::Esc {
        b == App { filter: FilterState { text: f.prev, active: false, cursor: 0, ..f }, ..a }
    } else {
        let (buf, cur) = edit_line(f.buf@, f.cursor as int, key, ctrl);
        &&& b.filter.buf@ == buf
        &&& b.filter.cursor == cur
        &&& b.filter.text@ == buf
        &&& b == App {
            filter: FilterState {
                text: b.filter.text,
                buf: b.filter.buf,
                cursor: b.filter.cursor,
                ..f
            },
            ..a
        }
    }
}

/// The help screen: `q` quits, `h`, `Esc`, `j` and `k` close it.
pub open spec fn help_step(a: App, key: Key, b: App) -> bool {
    if key == Key::Char('q') || key == Key::Char('Q') {
        b == App { quit: true, ..a }
    } else if key == Key::Char('h') || key == Key::Char('H') || key == Key::Esc || key == Key::Char('j')
        || key == Key::Char('k') {
        b == App { show_help: false, ..a }
    } else {
        b == a
    }
}

/// The preferences `q` gets from `p` when theme-list entry `sel` is applied (see
/// `App::apply_selected_theme`).
pub open spec fn applies_theme(p: Prefs, sel: int, q: Prefs) -> bool {
    exists|t: Seq<(String, String)>|
        is_theme_list(p.custom_themes@, t) && if sel < t.len() {
            choose_theme(p, t[sel].0@, q)
        } else {
            q == p
        }
}

/// The chooser highlights entry `s` and previews it.
#[verifier::opaque]
pub open spec fn chooser_moved(a: App, s: int, b: App) -> bool {
    &&& b.theme_chooser == (ThemeChooser { selected: s as usize, ..a.theme_chooser })
    &&& applies_theme(a.prefs, s, b.prefs)
    &&& b == App { prefs: b.prefs, theme_chooser: b.theme_chooser, ..a }
}

/// The chooser closes on its highlighted theme, which the status line names, and the
/// preferences are saved.
#[verifier::opaque]
pub open spec fn chooser_kept(a: App, now: u64, b: App, eff: KeyEffect) -> bool {
    let tc = a.theme_chooser;
    &&& applies_theme(a.prefs, tc.selected as int, b.prefs)
    &&& b.theme_chooser == (ThemeChooser { active: false, ..tc })
    &&& exists|t: Seq<(String, String)>|
        is_theme_list(a.prefs.custom_themes@, t) && if tc.selected < t.len() {
            status_is(b, "\u{25C6} "@ + t[tc.selected as int].1@, now)
        } else {
            b.status_msg == a.status_msg
        }
    &&& b == App { prefs: b.prefs, theme_chooser: b.theme_chooser, status_msg: b.status_msg, ..a }
    &&& saving(a, eff)
}

/// The theme chooser: `Esc` and `q` restore the theme in force when it opened; `j`,
/// `k`, `g`, `G` and the arrows move the highlight and preview the theme under it;
/// `Enter` keeps the highlighted theme, names it on the status line and saves.
#[verifier::opaque]
pub open spec fn chooser_step(a: App, key: Key, now: u64, b: App, eff: KeyEffect) -> bool {
    let tc = a.theme_chooser;
    if key == Key::Esc || key == Key::Char('q') {
        &&& b == App {
            prefs: Prefs { color_mode: tc.orig_color_mode, active_theme: tc.orig_active_theme, ..a.prefs },
            theme_chooser: ThemeChooser { active: false, ..tc },
            ..a
        }
        &&& eff is Nothing
    } else if key == Key::Enter {
        chooser_kept(a, now, b, eff)
    } else if is_chooser_nav(key) {
        chooser_moved(a, chooser_target(a, key), b) && eff is Nothing
    } else {
        b == a && eff is Nothing
    }
}

/// The keys that move the chooser's highlight.
pub open spec fn is_chooser_nav(key: Key) -> bool {
    key == Key::Char('j') || key == Key::Down || key == Key::Char('k') || key == Key::Up || key == Key::Home
        || key == Key::Char('g') || key == Key::End || key == Key::Char('G')
}

/// Where the chooser's highlight goes: `j` and down one entry (not past the last),
/// `k` and up one entry (not before the first), `g` and `Home` to the first, `G` and
/// `End` to the last.
pub open spec fn chooser_target(a: App, key: Key) -> int {
    let count = 30 + a.prefs.custom_themes@.len();
    let sel = a.theme_chooser.selected as int;
    if key == Key::Char('j') || key == Key::Down {
        min_int(sel + 1, count - 1)
    } else if key == Key::Char('k') || key == Key::Up {
        sat_sub(sel, 1)
    } else if key == Key::Home || key == Key::Char('g') {
        0
    } else {
        count - 1
    }
}

/// `c + d` on an 8-bit color index, wrapping around.
pub open spec fn wrap_u8(c: u8, d: int) -> u8 {
    ((c + d) % 256) as u8
}

/// The palette editor: `Esc` and `q` close it; `j`, `k` and the up and down arrows
/// choose the slot; `l`, `h` and the right and left arrows step its color by one, `L`
/// and `H` by ten, wrapping around; `Enter` and `s` begin naming the palette.
pub open spec fn editor_step(a: App, key: Key, b: App) -> bool {
    let e = a.theme_edit;
    let c = e.colors@[e.slot as int];
    let recolor = |v: u8|
        b.theme_edit.colors@ == e.colors@.update(e.slot as int, v) && b == App {
            theme_edit: ThemeEditState { colors: b.theme_edit.colors, ..e },
            ..a
        };
    if key == Key::Esc || key == Key::Char('q') {
        b == App { theme_edit: ThemeEditState { active: false, ..e }, ..a }
    } else if key == Key::Char('j') || key == Key::Down {
        b == App { theme_edit: ThemeEditState { slot: if e.slot < 5 { (e.slot + 1) as usize } else { 5 }, ..e }, ..a }
    } else if key == Key::Char('k') || key == Key::Up {
        b == App { theme_edit: ThemeEditState { slot: sat_sub(e.slot as int, 1) as usize, ..e }, ..a }
    } else if key == Key::Char('l') || key == Key::Right {
        recolor(wrap_u8(c, 1))
    } else if key == Key::Char('h') || key == Key::Left {
        recolor(wrap_u8(c, 255))
    } else if key == Key::Char('L') {
        recolor(wrap_u8(c, 10))
    } else if key == Key::Char('H') {
        recolor(wrap_u8(c, 246))
    } else if key == Key::Enter || key == Key::Char('s') || key == Key::Char('S') {
        &&& b.theme_edit.name@.len() == 0
        &&& b == App {
            theme_edit: ThemeEditState { naming: true, name: b.theme_edit.name, cursor: 0, ..e },
            ..a
        }
    } else {
        b == a
    }
}

/// The colors of the palette being edited.
pub open spec fn edited_colors(e: ThemeEditState) -> ThemeColors {
    ThemeColors {
        blue: e.colors@[0],
        green: e.colors@[1],
        purple: e.colors@[2],
        light_purple: e.colors@[3],
        royal: e.colors@[4],
        dark_purple: e.colors@[5],
    }
}

/// The editor closed, with its name line cleared.
pub open spec fn editor_closed(a: App, b: App) -> bool {
    b.theme_edit.name@.len() == 0 && b.theme_edit == (ThemeEditState {
        active: false,
        naming: false,
        name: b.theme_edit.name,
        cursor: 0,
        ..a.theme_edit
    })
}

/// Naming the edited palette: `Enter` stores it under the typed name without its
/// surrounding white space (unless that is empty), makes it the active theme, saves,
/// and closes the editor; `Esc` stops naming; backspace and the arrows edit; any other
/// character is inserted while the name is shorter than 20 characters.
pub open spec fn naming_step(a: App, key: Key, ctrl: bool, now: u64, b: App, eff: KeyEffect) -> bool {
    let e = a.theme_edit;
    let cur = e.cursor as int;
    let len = e.name@.len() as int;
    let edited = |nm: Seq<char>, c: int|
        b.theme_edit.name@ == nm && b == App {
            theme_edit: ThemeEditState { name: b.theme_edit.name, cursor: c as usize, ..e },
            ..a
        } && eff is Nothing;
    if key == Key::Enter {
        naming_entered(a, now, b, eff)
    } else if key == Key::Esc {
        &&& b.theme_edit.name@.len() == 0
        &&& b == App {
            theme_edit: ThemeEditState { naming: false, name: b.theme_edit.name, cursor: 0, ..e },
            ..a
        }
        &&& eff is Nothing
    } else if key == Key::Backspace {
        if cur > 0 { edited(e.name@.remove(cur - 1), cur - 1) } else { b == a && eff is Nothing }
    } else if key == Key::Left {
        edited(e.name@, sat_sub(cur, 1))
    } else if key == Key::Right {
        edited(e.name@, min_int(cur + 1, len))
    } else if key is Char && !ctrl {
        if len < 20 { edited(e.name@.insert(cur, key->0), cur + 1) } else { b == a && eff is Nothing }
    } else {
        b == a && eff is Nothing
    }
}

impl App {
    /// A key while the filter line is edited (see `filter_step`).
    fn filter_key(&mut self, key: Key, ctrl: bool)
        requires
            old(self).filter.cursor <= old(self).filter.buf@.len(),
            keys_ready(*old(self)),
        ensures
            final(self).sorted_cache == old(self).sorted_cache,
            keys_ready(*final(self)),
            filter_step(*old(self), key, ctrl, *final(self)),
            final(self).filter.cursor <= final(self).filter.buf@.len(),
    {
        match key {
            Key::Enter => {
                self.filter.active = false;
            },
            Key::Esc => {
                self.filter.text = self.filter.prev.clone();
                self.filter.active = false;
                self.filter.cursor = 0;
            },
            _ => {
                edit_line_step(&mut self.filter.buf, &mut self.filter.cursor, key, ctrl);
                self.filter.text = string_from_chars(self.filter.buf.as_slice());
            },
        }
    }

    /// A key while the help screen shows (see `help_step`).
    fn help_key(&mut self, key: Key)
        requires
            keys_ready(*old(self)),
        ensures
            final(self).sorted_cache == old(self).sorted_cache,
            keys_ready(*final(self)),
            help_step(*old(self), key, *final(self)),
    {
        if key == Key::Char('q') || key == Key::Char('Q') {
            self.quit = true;
        } else if key == Key::Char('h') || key == Key::Char('H') || key == Key::Esc || key == Key::Char('j')
            || key == Key::Char('k') {
            self.show_help = false;
        }
    }

    /// What saving the preferences comes to: writing them out (`Save`), but nothing in
    /// test mode.
    pub fn save(&self) -> (eff: KeyEffect)
        ensures
            saving(*self, eff),
    {
        if self.test_mode { KeyEffect::Nothing } else { KeyEffect::Save }
    }

    /// Highlights chooser entry `s` and previews it.
    fn chooser_move(&mut self, s: usize)
        ensures
            final(self).sorted_cache == old(self).sorted_cache,
            chooser_moved(*old(self), s as int, *final(self)),
            final(self).theme_chooser.selected == s,
            *final(self) == (App { prefs: final(self).prefs, theme_chooser: final(self).theme_chooser, ..*old(self) }),
            final(self).prefs.custom_themes == old(self).prefs.custom_themes,
    {
        self.theme_chooser.selected = s;
        self.apply_selected_theme();
        reveal(chooser_moved);
    }

    /// A key while the theme chooser is open (see `chooser_step`).
    fn chooser_key(&mut self, key: Key, now: u64) -> (eff: KeyEffect)
        requires
            old(self).theme_chooser.selected < usize::MAX,
            keys_ready(*old(self)),
        ensures
            final(self).sorted_cache == old(self).sorted_cache,
            keys_ready(*final(self)),
            chooser_step(*old(self), key, now, *final(self), eff),
    {
        let ghost a = *self;
        if key == Key::Esc || key == Key::Char('q') {
            self.chooser_cancel();
            assert(chooser_step(a, key, now, *self, KeyEffect::Nothing)) by {
                reveal(chooser_step);
            }
            return KeyEffect::Nothing;
        }
        if key == Key::Enter {
            let eff = self.chooser_keep(now);
            assert(chooser_step(a, key, now, *self, eff)) by {
                reveal(chooser_step);
            }
            return eff;
        }
        if is_nav(key) {
            self.chooser_nav(key);
            assert(chooser_step(a, key, now, *self, KeyEffect::Nothing)) by {
                reveal(chooser_step);
            }
            return KeyEffect::Nothing;
        }
        assert(chooser_step(a, key, now, *self, KeyEffect::Nothing)) by {
            reveal(chooser_step);
        }
        KeyEffect::Nothing
    }

    /// A key that moves the chooser's highlight.
    fn chooser_nav(&mut self, key: Key)
        requires
            old(self).theme_chooser.selected < usize::MAX,
            keys_ready(*old(self)),
        ensures
            final(self).sorted_cache == old(self).sorted_cache,
            keys_ready(*final(self)),
            chooser_moved(*old(self), chooser_target(*old(self), key), *final(self)),
            final(self).theme_chooser.selected < usize::MAX,
    {
        let sel = self.theme_chooser.selected;
        let count = self.all_themes().len();
        let s = if key == Key::Char('j') || key == Key::Down {
            if sel + 1 < count - 1 { sel + 1 } else { count - 1 }
        } else if key == Key::Char('k') || key == Key::Up {
            sel.saturating_sub(1)
        } else if key == Key::Home || key == Key::Char('g') {
            0
        } else {
            count - 1
        };
        self.chooser_move(s);
    }

    /// Closes the chooser and restores the theme in force when it opened.
    fn chooser_cancel(&mut self)
        requires
            keys_ready(*old(self)),
        ensures
            keys_ready(*final(self)),
            final(self).theme_chooser.selected == old(self).theme_chooser.selected,
            *final(self) == (App {
                prefs: Prefs {
                    color_mode: old(self).theme_chooser.orig_color_mode,
                    active_theme: old(self).theme_chooser.orig_active_theme,
                    ..old(self).prefs
                },
                theme_chooser: ThemeChooser { active: false, ..old(self).theme_chooser },
                ..*old(self)
            }),
    {
        self.prefs.color_mode = self.theme_chooser.orig_color_mode;
        self.prefs.active_theme = match &self.theme_chooser.orig_active_theme {
            Some(t) => Some(t.clone()),
            None => None,
        };
        self.theme_chooser.active = false;
    }

    /// Closes the chooser on its highlighted theme (see `chooser_kept`).
    fn chooser_keep(&mut self, now: u64) -> (eff: KeyEffect)
        requires
            keys_ready(*old(self)),
        ensures
            final(self).sorted_cache == old(self).sorted_cache,
            keys_ready(*final(self)),
            final(self).theme_chooser.selected == old(self).theme_chooser.selected,
            chooser_kept(*old(self), now, *final(self), eff),
    {
        reveal(chooser_kept);
        let sel = self.theme_chooser.selected;
        self.apply_selected_theme();
        let themes = self.all_themes();
        if sel < themes.len() {
            let mut msg = String::from_str("\u{25C6} ");
            msg.append(themes[sel].1.as_str());
            self.status_msg = Some((msg, now));
        }
        self.theme_chooser.active = false;
        self.save()
    }

    /// A key in the palette editor (see `editor_step`).
    fn editor_key(&mut self, key: Key)
        requires
            old(self).theme_edit.slot < 6,
            keys_ready(*old(self)),
        ensures
            final(self).sorted_cache == old(self).sorted_cache,
            keys_ready(*final(self)),
            editor_step(*old(self), key, *final(self)),
            final(self).theme_edit.slot < 6,
    {
        let slot = self.theme_edit.slot;
        let c = self.theme_edit.colors[slot];
        if key == Key::Esc || key == Key::Char('q') {
            self.theme_edit.active = false;
        } else if key == Key::Char('j') || key == Key::Down {
            self.theme_edit.slot = if slot < 5 { slot + 1 } else { 5 };
        } else if key == Key::Char('k') || key == Key::Up {
            self.theme_edit.slot = slot.saturating_sub(1);
        } else if key == Key::Char('l') || key == Key::Right {
            self.theme_edit.colors[slot] = c.wrapping_add(1);
        } else if key == Key::Char('h') || key == Key::Left {
            self.theme_edit.colors[slot] = c.wrapping_sub(1);
        } else if key == Key::Char('L') {
            self.theme_edit.colors[slot] = c.wrapping_add(10);
        } else if key == Key::Char('H') {
            self.theme_edit.colors[slot] = c.wrapping_sub(10);
        } else if key == Key::Enter || key == Key::Char('s') || key == Key::Char('S') {
            self.theme_edit.naming = true;
            self.theme_edit.name = Vec::new();
            self.theme_edit.cursor = 0;
        }
    }
}

/// `s` without leading and trailing white space (see `trim`).
#[verifier::spinoff_prover]
pub(crate) fn trim_chars(v: &Vec<char>) -> (r: Vec<char>)
    ensures
        r@ == trim(v@),
{
    let mut e: usize = v.len();
    assert(v@.subrange(0, v@.len() as int) =~= v@);
    while e > 0 && white_space(v[e - 1])
        invariant
            e <= v@.len(),
            trimmed_len(v@) == trimmed_len(v@.subrange(0, e as int)),
        decreases e,
    {
        assert(v@.subrange(0, e as int).drop_last() =~= v@.subrange(0, e - 1));
        e = e - 1;
    }
    assert(trimmed_len(v@.subrange(0, e as int)) == e);
    let ghost t = v@.subrange(0, e as int);
    let mut i: usize = 0;
    assert(t.subrange(0, e as int) =~= t);
    while i < e && white_space(v[i])
        invariant
            e <= v@.len(),
            t == v@.subrange(0, e as int),
            i <= e,
            leading_space(t) == i + leading_space(t.subrange(i as int, e as int)),
        decreases e - i,
    {
        assert(t.subrange(i as int, e as int).drop_first() =~= t.subrange(i + 1, e as int));
        i = i + 1;
    }
    let mut r: Vec<char> = Vec::new();
    let mut k: usize = i;
    while k < e
        invariant
            i <= k <= e <= v@.len(),
            r@ == v@.subrange(i as int, k as int),
        decreases e - k,
    {
        r.push(v[k]);
        k = k + 1;
        assert(r@ =~= v@.subrange(i as int, k as int));
    }
    assert(r@ =~= t.subrange(leading_space(t) as int, t.len() as int));
    r
}

/// `Enter` while naming the palette (see `naming_step`).
pub open spec fn naming_entered(a: App, now: u64, b: App, eff: KeyEffect) -> bool {
    let e = a.theme_edit;
    let nm = trim(e.name@);
    &&& editor_closed(a, b)
    &&& if nm.len() > 0 {
        &&& stores_theme(a.prefs.custom_themes@, b.prefs.custom_themes@, nm, edited_colors(e))
        &&& b.prefs.wf()
        &&& b.prefs.active_theme matches Some(t) && t@ == nm
        &&& b.prefs == (Prefs {
            custom_themes: b.prefs.custom_themes,
            active_theme: b.prefs.active_theme,
            ..a.prefs
        })
        &&& status_is(b, "Saved theme: "@ + nm, now)
        &&& b == App { prefs: b.prefs, status_msg: b.status_msg, theme_edit: b.theme_edit, ..a }
        &&& saving(a, eff)
    } else {
        b == App { theme_edit: b.theme_edit, ..a } && eff is Nothing
    }
}

impl App {
    /// Stores the named palette and closes the editor (see `naming_entered`).
    fn naming_done(&mut self, now: u64) -> (eff: KeyEffect)
        requires
            old(self).prefs.wf(),
            keys_ready(*old(self)),
        ensures
            keys_ready(*final(self)),
            naming_entered(*old(self), now, *final(self), eff),
            final(self).prefs.wf(),
    {
        let ghost a = *self;
        let nm = trim_chars(&self.theme_edit.name);
        if nm.len() > 0 {
            self.naming_keep(&nm, now)
        } else {
            self.close_editor();
            assert(*self == (App { theme_edit: self.theme_edit, ..a }));
            KeyEffect::Nothing
        }
    }

    /// Stores the palette under the typed name `nm` and closes the editor.
    fn naming_keep(&mut self, nm: &Vec<char>, now: u64) -> (eff: KeyEffect)
        requires
            old(self).prefs.wf(),
            nm@ == trim(old(self).theme_edit.name@),
            nm@.len() > 0,
            keys_ready(*old(self)),
        ensures
            keys_ready(*final(self)),
            naming_entered(*old(self), now, *final(self), eff),
            final(self).prefs.wf(),
    {
        let ghost a = *self;
        let eff = self.store_named(nm, now);
        let ghost m = *self;
        self.close_editor();
        assert(m.theme_edit == a.theme_edit);
        eff
    }

    /// Stores the edited palette under the name `nm`, makes it the active theme, says
    /// so on the status line and saves.
    fn store_named(&mut self, nm: &Vec<char>, now: u64) -> (eff: KeyEffect)
        requires
            old(self).prefs.wf(),
            old(self).theme_edit.colors@.len() == 6,
        ensures
            stores_theme(old(self).prefs.custom_themes@, final(self).prefs.custom_themes@, nm@, edited_colors(old(self).theme_edit)),
            final(self).prefs.wf(),
            final(self).prefs.active_theme matches Some(t) && t@ == nm@,
            final(self).prefs == (Prefs {
                custom_themes: final(self).prefs.custom_themes,
                active_theme: final(self).prefs.active_theme,
                ..old(self).prefs
            }),
            status_is(*final(self), "Saved theme: "@ + nm@, now),
            *final(self) == (App { prefs: final(self).prefs, status_msg: final(self).status_msg, ..*old(self) }),
            saving(*old(self), eff),
    {
        let colors = ThemeColors {
            blue: self.theme_edit.colors[0],
            green: self.theme_edit.colors[1],
            purple: self.theme_edit.colors[2],
            light_purple: self.theme_edit.colors[3],
            royal: self.theme_edit.colors[4],
            dark_purple: self.theme_edit.colors[5],
        };
        let name = string_from_chars(nm.as_slice());
        set_custom_theme(&mut self.prefs.custom_themes, name.clone(), colors);
        self.prefs.active_theme = Some(name.clone());
        let mut msg = String::from_str("Saved theme: ");
        msg.append(name.as_str());
        self.status_msg = Some((msg, now));
        self.save()
    }

    /// Closes the palette editor and clears its name line.
    fn close_editor(&mut self)
        ensures
            editor_closed(*old(self), *final(self)),
            *final(self) == (App { theme_edit: final(self).theme_edit, ..*old(self) }),
    {
        self.theme_edit.active = false;
        self.theme_edit.naming = false;
        self.theme_edit.name = Vec::new();
        self.theme_edit.cursor = 0;
    }

    /// A key while the palette is being named (see `naming_step`).
    fn naming_key(&mut self, key: Key, ctrl: bool, now: u64) -> (eff: KeyEffect)
        requires
            old(self).theme_edit.cursor <= old(self).theme_edit.name@.len(),
            old(self).prefs.wf(),
            keys_ready(*old(self)),
        ensures
            final(self).sorted_cache == old(self).sorted_cache,
            keys_ready(*final(self)),
            naming_step(*old(self), key, ctrl, now, *final(self), eff),
            final(self).theme_edit.cursor <= final(self).theme_edit.name@.len(),
            final(self).prefs.wf(),
    {
        let cur = self.theme_edit.cursor;
        let len = self.theme_edit.name.len();
        if key == Key::Enter {
            self.naming_done(now)
        } else if key == Key::Esc {
            self.theme_edit.naming = false;
            self.theme_edit.name = Vec::new();
            self.theme_edit.cursor = 0;
            KeyEffect::Nothing
        } else if key == Key::Backspace {
            if cur > 0 {
                self.theme_edit.name.remove(cur - 1);
                self.theme_edit.cursor = cur - 1;
            }
            KeyEffect::Nothing
        } else if key == Key::Left {
            self.theme_edit.cursor = cur.saturating_sub(1);
            KeyEffect::Nothing
        } else if key == Key::Right {
            self.theme_edit.cursor = if cur < len { cur + 1 } else { len };
            KeyEffect::Nothing
        } else {
            if let Key::Char(c) = key {
                if !ctrl && len < 20 {
                    self.theme_edit.name.insert(cur, c);
                    self.theme_edit.cursor = cur + 1;
                }
            }
            KeyEffect::Nothing
        }
    }
}

// ─── Drill-down keys ────────────────────────────────────────────────────────

/// The directory shown in the drill-down view (see `App::drill_current_path`).
pub open spec fn drill_path(d: DrillState) -> Seq<char> {
    if d.path@.len() > 0 { d.path@.last()@ } else { Seq::empty() }
}

/// A scan of `path` begins: the listing empties and the caller is asked to scan.
pub open spec fn scan_begun(a: App, b: App, path: Seq<String>, eff: KeyEffect) -> bool {
    &&& b.drill.path@ == path
    &&& b.drill.entries@.len() == 0
    &&& b.drill == (DrillState {
        path: b.drill.path,
        entries: b.drill.entries,
        scanning: true,
        scan_count: 0,
        scan_total: 0,
        ..b.drill
    })
    &&& eff matches KeyEffect::Scan(p) && p@ == path.last()@
}

/// The drill-down listing is sorted anew by `mode`, reversed when `rev`.
pub open spec fn drill_resorted(a: App, mode: DrillSortMode, rev: bool, b: App) -> bool {
    let d = a.drill;
    &&& is_drill_order(d.entries@, mode, rev, b.drill.entries@)
    &&& b.drill == (DrillState {
        sort: mode,
        sort_rev: rev,
        entries: b.drill.entries,
        selected: 0,
        scroll_offset: 0,
        ..d
    })
    &&& b == App { drill: b.drill, ..a }
}

/// Going up a directory: a scan of the parent begins, or, from the top directory, the
/// view returns to the disks.
pub open spec fn drill_went_up(a: App, b: App, eff: KeyEffect) -> bool {
    let d = a.drill;
    if d.path@.len() > 1 {
        &&& scan_begun(a, b, d.path@.drop_last(), eff)
        &&& b == App { drill: DrillState { path: b.drill.path, entries: b.drill.entries, scanning: true, scan_count: 0, scan_total: 0, ..d }, ..a }
    } else {
        &&& b.drill.path@.len() == 0
        &&& b.drill.entries@.len() == 0
        &&& b == App {
            drill: DrillState { mode: ViewMode::Disks, path: b.drill.path, entries: b.drill.entries, ..d },
            ..a
        }
        &&& eff is Nothing
    }
}

/// Entering the highlighted entry: when no scan runs and it is a directory, its path
/// is pushed and a scan of it begins.
pub open spec fn drill_entered(a: App, b: App, eff: KeyEffect) -> bool {
    let d = a.drill;
    let sel = d.selected as int;
    if !d.scanning && sel < d.entries@.len() && d.entries@[sel].is_dir {
        &&& scan_begun(a, b, d.path@.push(d.entries@[sel].path), eff)
        &&& b == App { drill: DrillState { path: b.drill.path, entries: b.drill.entries, scanning: true, scan_count: 0, scan_total: 0, ..d }, ..a }
    } else {
        b == a && eff is Nothing
    }
}

/// The drill-down view: `Esc` and backspace go up a directory (or back to the disks
/// from the top one); `Enter` enters the highlighted directory; `j`, `k`, `g`, `G` and
/// the arrows move the highlight; `s` and `n` sort by size or name (again: reverse),
/// `r` reverses; `o` opens the directory; `q` quits.
pub open spec fn drill_step(a: App, key: Key, now: u64, b: App, eff: KeyEffect) -> bool {
    let d = a.drill;
    let n = d.entries@.len() as int;
    let sel = d.selected as int;
    let moved = |s: int| b == App { drill: DrillState { selected: s as usize, ..d }, ..a } && eff is Nothing;
    if key == Key::Esc || key == Key::Backspace {
        drill_went_up(a, b, eff)
    } else if key == Key::Enter {
        drill_entered(a, b, eff)
    } else if key == Key::Char('j') || key == Key::Down {
        if n > 0 { moved(min_int(sel + 1, n - 1)) } else { b == a && eff is Nothing }
    } else if key == Key::Char('k') || key == Key::Up {
        moved(sat_sub(sel, 1))
    } else if key == Key::Home || key == Key::Char('g') {
        moved(0)
    } else if key == Key::End || key == Key::Char('G') {
        if n > 0 { moved(n - 1) } else { b == a && eff is Nothing }
    } else if key == Key::Char('s') || key == Key::Char('S') {
        drill_resorted(a, DrillSortMode::Size, d.sort == DrillSortMode::Size && !d.sort_rev, b) && eff is Nothing
    } else if key == Key::Char('n') || key == Key::Char('N') {
        drill_resorted(a, DrillSortMode::Name, d.sort == DrillSortMode::Name && !d.sort_rev, b) && eff is Nothing
    } else if key == Key::Char('r') || key == Key::Char('R') {
        drill_resorted(a, d.sort, !d.sort_rev, b) && eff is Nothing
    } else if key == Key::Char('o') || key == Key::Char('O') {
        &&& status_is(b, "Opened "@ + drill_path(d), now)
        &&& b == App { status_msg: b.status_msg, ..a }
        &&& if a.test_mode { eff is Nothing } else { eff matches KeyEffect::Open(p) && p@ == drill_path(d) }
    } else if key == Key::Char('q') || key == Key::Char('Q') {
        b == App { quit: true, ..a } && eff is Nothing
    } else {
        b == a && eff is Nothing
    }
}

impl App {
    /// Begins a scan of the directory `path` for the drill-down view: the listing
    /// empties and the caller is asked to scan it.
    pub fn start_drill_scan(&mut self, path: String) -> (eff: KeyEffect)
        ensures
            final(self).sorted_cache == old(self).sorted_cache,
            *final(self) == (App {
                drill: DrillState {
                    entries: final(self).drill.entries,
                    scanning: true,
                    scan_count: 0,
                    scan_total: 0,
                    ..old(self).drill
                },
                ..*old(self)
            }),
            final(self).drill.entries@.len() == 0,
            eff matches KeyEffect::Scan(p) && p@ == path@,
    {
        self.drill.scanning = true;
        self.drill.entries = Vec::new();
        self.drill.scan_count = 0;
        self.drill.scan_total = 0;
        KeyEffect::Scan(path)
    }

    /// Re-sorts the drill-down listing by `mode`, reversed when `rev`.
    fn drill_resort(&mut self, mode: DrillSortMode, rev: bool)
        ensures
            final(self).sorted_cache == old(self).sorted_cache,
            drill_resorted(*old(self), mode, rev, *final(self)),
    {
        self.drill.sort = mode;
        self.drill.sort_rev = rev;
        self.sort_drill_entries();
    }

    /// A key in the drill-down view (see `drill_step`).
    #[verifier::rlimit(40)]
    fn drill_key(&mut self, key: Key, now: u64) -> (eff: KeyEffect)
        requires
            old(self).drill.selected < usize::MAX,
            keys_ready(*old(self)),
        ensures
            final(self).sorted_cache == old(self).sorted_cache,
            keys_ready(*final(self)),
            drill_step(*old(self), key, now, *final(self), eff),
            final(self).drill.selected < usize::MAX,
    {
        let n = self.drill.entries.len();
        let sel = self.drill.selected;
        if key == Key::Esc || key == Key::Backspace {
            self.drill_up()
        } else if key == Key::Enter {
            self.drill_enter()
        } else if key == Key::Char('j') || key == Key::Down {
            if n > 0 {
                self.drill.selected = if sel + 1 < n - 1 { sel + 1 } else { n - 1 };
            }
            KeyEffect::Nothing
        } else if key == Key::Char('k') || key == Key::Up {
            self.drill.selected = sel.saturating_sub(1);
            KeyEffect::Nothing
        } else if key == Key::Home || key == Key::Char('g') {
            self.drill.selected = 0;
            KeyEffect::Nothing
        } else if key == Key::End || key == Key::Char('G') {
            if n > 0 {
                self.drill.selected = n - 1;
            }
            KeyEffect::Nothing
        } else if key == Key::Char('s') || key == Key::Char('S') {
            let rev = self.drill.sort == DrillSortMode::Size && !self.drill.sort_rev;
            self.drill_resort(DrillSortMode::Size, rev);
            KeyEffect::Nothing
        } else if key == Key::Char('n') || key == Key::Char('N') {
            let rev = self.drill.sort == DrillSortMode::Name && !self.drill.sort_rev;
            self.drill_resort(DrillSortMode::Name, rev);
            KeyEffect::Nothing
        } else if key == Key::Char('r') || key == Key::Char('R') {
            let mode = self.drill.sort;
            let rev = !self.drill.sort_rev;
            self.drill_resort(mode, rev);
            KeyEffect::Nothing
        } else if key == Key::Char('o') || key == Key::Char('O') {
            let path = self.drill_current_path();
            self.open_path(path, now)
        } else if key == Key::Char('q') || key == Key::Char('Q') {
            self.quit = true;
            KeyEffect::Nothing
        } else {
            KeyEffect::Nothing
        }
    }

    /// Goes up a directory, or back to the disks from the top one.
    fn drill_up(&mut self) -> (eff: KeyEffect)
        requires
            keys_ready(*old(self)),
        ensures
            final(self).sorted_cache == old(self).sorted_cache,
            keys_ready(*final(self)),
            drill_went_up(*old(self), *final(self), eff),
    {
        if self.drill.path.len() > 1 {
            self.drill.path.pop();
            let parent = self.drill_current_path();
            self.start_drill_scan(parent)
        } else {
            self.drill.mode = ViewMode::Disks;
            self.drill.path = Vec::new();
            self.drill.entries = Vec::new();
            KeyEffect::Nothing
        }
    }

    /// Enters the highlighted directory, unless a scan runs.
    fn drill_enter(&mut self) -> (eff: KeyEffect)
        requires
            keys_ready(*old(self)),
        ensures
            final(self).sorted_cache == old(self).sorted_cache,
            keys_ready(*final(self)),
            drill_entered(*old(self), *final(self), eff),
    {
        let sel = self.drill.selected;
        if !self.drill.scanning && sel < self.drill.entries.len() && self.drill.entries[sel].is_dir {
            let path = self.drill.entries[sel].path.clone();
            self.drill.path.push(path.clone());
            self.start_drill_scan(path)
        } else {
            KeyEffect::Nothing
        }
    }

    /// Names `path` on the status line as opened and, unless in test mode, asks the
    /// caller to open it.
    fn open_path(&mut self, path: String, now: u64) -> (eff: KeyEffect)
        ensures
            final(self).sorted_cache == old(self).sorted_cache,
            status_is(*final(self), "Opened "@ + path@, now),
            *final(self) == (App { status_msg: final(self).status_msg, ..*old(self) }),
            if old(self).test_mode { eff is Nothing } else { eff matches KeyEffect::Open(p) && p@ == path@ },
    {
        let mut msg = String::from_str("Opened ");
        msg.append(path.as_str());
        self.status_msg = Some((msg, now));
        if self.test_mode { KeyEffect::Nothing } else { KeyEffect::Open(path) }
    }
}

// ─── Keys of the disk view ──────────────────────────────────────────────────

/// Half a page of the listing, at least one row.
pub open spec fn half_page(count: int) -> int {
    if count / 2 >= 1 { count / 2 } else { 1 }
}

/// With Ctrl held: `d` and `u` move the highlight half a page down or up, `g` to the
/// top; other keys do nothing.
pub open spec fn disk_ctrl_step(a: App, key: Key, b: App) -> bool {
    let count = a.sorted_cache@.len() as int;
    let h = half_page(count);
    if key == Key::Char('d') && count > 0 {
        b == App {
            selected: Some(
                match a.selected {
                    Some(i) => min_int(i + h, count - 1),
                    None => min_int(h, count - 1),
                } as usize,
            ),
            ..a
        }
    } else if key == Key::Char('u') && count > 0 {
        b == App {
            selected: Some(
                match a.selected {
                    Some(i) => sat_sub(i as int, h),
                    None => 0,
                } as usize,
            ),
            ..a
        }
    } else if key == Key::Char('g') && count > 0 {
        b == App { selected: Some(0), ..a }
    } else {
        b == a
    }
}

/// The keys that move the highlight in the disk view.
pub open spec fn is_move_key(key: Key) -> bool {
    key == Key::Esc || key == Key::Home || key == Key::End || key == Key::Char('G') || key == Key::Char('j')
        || key == Key::Down || key == Key::Char('k') || key == Key::Up
}

/// Moving the highlight: `Esc` clears it, `Home` and `End` (or `G`) go to the first
/// and last row, `j`, `k` and the arrows step down and up (from nothing, to the top).
pub open spec fn disk_move_step(a: App, key: Key, b: App) -> bool {
    let count = a.sorted_cache@.len() as int;
    if key == Key::Esc {
        b == App { selected: None, ..a }
    } else if count == 0 {
        b == a
    } else if key == Key::Home {
        b == App { selected: Some(0), ..a }
    } else if key == Key::End || key == Key::Char('G') {
        b == App { selected: Some((count - 1) as usize), ..a }
    } else if key == Key::Char('j') || key == Key::Down {
        b == App {
            selected: Some(
                match a.selected {
                    Some(i) => min_int(i + 1, count - 1),
                    None => 0,
                } as usize,
            ),
            ..a
        }
    } else {
        b == App {
            selected: Some(
                match a.selected {
                    Some(i) => sat_sub(i as int, 1),
                    None => 0,
                } as usize,
            ),
            ..a
        }
    }
}

/// The keys that change a saved setting in the disk view.
pub open spec fn is_pref_key(key: Key) -> bool {
    key == Key::Char('l') || key == Key::Char('L') || key == Key::Char('a') || key == Key::Char('A')
        || key == Key::Char('r') || key == Key::Char('R') || key == Key::Char('n') || key == Key::Char('N')
        || key == Key::Char('u') || key == Key::Char('U') || key == Key::Char('s') || key == Key::Char('S')
        || key == Key::Char('b') || key == Key::Char('v') || key == Key::Char('V') || key == Key::Char('d')
        || key == Key::Char('D') || key == Key::Char('g') || key == Key::Char('x') || key == Key::Char('X')
        || key == Key::Char('m') || key == Key::Char('M') || key == Key::Char('w') || key == Key::Char('W')
        || key == Key::Char('i') || key == Key::Char('I') || key == Key::Char('t') || key == Key::Char('T')
        || key == Key::Char('z') || key == Key::Char('Z') || key == Key::Char('f') || key == Key::Char('F')
}

/// The character of a character key, or NUL for any other key.
pub open spec fn key_char(key: Key) -> char {
    match key {
        Key::Char(c) => c,
        _ => '\0',
    }
}

/// The ordering and threshold settings after a setting key: `r` reverses the order;
/// `n`, `u` and `s` sort by name, usage or size (choosing the sort in force reverses
/// it, another one sorts ascending); `b` next bar style; `i` next unit; `t` next
/// warning threshold (50, 60, 70, 80, else 50); `z` next critical threshold (80, 85,
/// 90, 95, else 80); `f` next refresh interval (1, 2, 5, 10 seconds, else 1).
pub open spec fn toggled_order(p: Prefs, key: Key) -> Prefs {
    let c = key_char(key);
    let by_name = c == 'n' || c == 'N';
    let by_pct = c == 'u' || c == 'U';
    let by_size = c == 's' || c == 'S';
    let mode = if by_name { SortMode::Name } else if by_pct { SortMode::Pct } else { SortMode::Size };
    let resort = by_name || by_pct || by_size;
    Prefs {
        sort_mode: if resort { mode } else { p.sort_mode },
        sort_rev: if c == 'r' || c == 'R' {
            !p.sort_rev
        } else if resort {
            p.sort_mode == mode && !p.sort_rev
        } else {
            p.sort_rev
        },
        bar_style: if c == 'b' { bar_next(p.bar_style) } else { p.bar_style },
        unit_mode: if c == 'i' || c == 'I' { unit_next(p.unit_mode) } else { p.unit_mode },
        thresh_warn: if c == 't' {
            if p.thresh_warn == 50 { 60 } else if p.thresh_warn == 60 { 70 } else if p.thresh_warn == 70 { 80 } else { 50 }
        } else {
            p.thresh_warn
        },
        thresh_crit: if c == 'z' || c == 'Z' {
            if p.thresh_crit == 80 { 85 } else if p.thresh_crit == 85 { 90 } else if p.thresh_crit == 90 { 95 } else { 80 }
        } else {
            p.thresh_crit
        },
        refresh_rate: if c == 'f' || c == 'F' {
            if p.refresh_rate == 1 { 2 } else if p.refresh_rate == 2 { 5 } else if p.refresh_rate == 5 { 10 } else { 1 }
        } else {
            p.refresh_rate
        },
        ..p
    }
}

/// The display settings after a setting key: `l` local mounts only, `a` all mounts,
/// `v` bars, `d` sizes (and back to the automatic size column), `g` header, `x`
/// border, `m` compact (and back to the automatic mount column), `w` full mount
/// paths, `T` tooltips.
pub open spec fn toggled_view(p: Prefs, key: Key) -> Prefs {
    let c = key_char(key);
    Prefs {
        show_local: if c == 'l' || c == 'L' { !p.show_local } else { p.show_local },
        show_all: if c == 'a' || c == 'A' { !p.show_all } else { p.show_all },
        show_bars: if c == 'v' || c == 'V' { !p.show_bars } else { p.show_bars },
        show_used: if c == 'd' || c == 'D' { !p.show_used } else { p.show_used },
        col_bar_end_w: if c == 'd' || c == 'D' { 0 } else { p.col_bar_end_w },
        show_header: if c == 'g' { !p.show_header } else { p.show_header },
        show_border: if c == 'x' || c == 'X' { !p.show_border } else { p.show_border },
        compact: if c == 'm' || c == 'M' { !p.compact } else { p.compact },
        col_mount_w: if c == 'm' || c == 'M' { 0 } else { p.col_mount_w },
        full_mount: if c == 'w' || c == 'W' { !p.full_mount } else { p.full_mount },
        show_tooltips: if c == 'T' { !p.show_tooltips } else { p.show_tooltips },
        ..p
    }
}

/// The settings after a setting key (see `toggled_order` and `toggled_view`).
pub open spec fn toggled(p: Prefs, key: Key) -> Prefs {
    toggled_view(toggled_order(p, key), key)
}

/// The character of a key, NUL for a key that is no character.
fn char_of(key: Key) -> (c: char)
    ensures
        c == key_char(key),
{
    match key {
        Key::Char(c) => c,
        _ => '\0',
    }
}

/// Applies a setting key to the ordering and threshold settings (see `toggled_order`).
fn toggle_order(p: &mut Prefs, key: Key)
    ensures
        *final(p) == toggled_order(*old(p), key),
{
    let c = char_of(key);
    let by_name = c == 'n' || c == 'N';
    let by_pct = c == 'u' || c == 'U';
    let by_size = c == 's' || c == 'S';
    let mode = if by_name { SortMode::Name } else if by_pct { SortMode::Pct } else { SortMode::Size };
    let resort = by_name || by_pct || by_size;
    let same = p.sort_mode == mode;
    let rev = if c == 'r' || c == 'R' {
        !p.sort_rev
    } else if resort {
        same && !p.sort_rev
    } else {
        p.sort_rev
    };
    let sort_mode = if resort { mode } else { p.sort_mode };
    let next_bar = p.bar_style.next();
    let next_unit = p.unit_mode.next();
    let bar_style = if c == 'b' { next_bar } else { p.bar_style };
    let unit_mode = if c == 'i' || c == 'I' { next_unit } else { p.unit_mode };
    let w = p.thresh_warn;
    let thresh_warn = if c == 't' {
        if w == 50 { 60 } else if w == 60 { 70 } else if w == 70 { 80 } else { 50 }
    } else {
        w
    };
    let k = p.thresh_crit;
    let thresh_crit = if c == 'z' || c == 'Z' {
        if k == 80 { 85 } else if k == 85 { 90 } else if k == 90 { 95 } else { 80 }
    } else {
        k
    };
    let f = p.refresh_rate;
    let refresh_rate = if c == 'f' || c == 'F' {
        if f == 1 { 2 } else if f == 2 { 5 } else if f == 5 { 10 } else { 1 }
    } else {
        f
    };
    p.sort_mode = sort_mode;
    p.sort_rev = rev;
    p.bar_style = bar_style;
    p.unit_mode = unit_mode;
    p.thresh_warn = thresh_warn;
    p.thresh_crit = thresh_crit;
    p.refresh_rate = refresh_rate;
}

/// Applies a setting key to the display settings (see `toggled_view`).
fn toggle_view(p: &mut Prefs, key: Key)
    ensures
        *final(p) == toggled_view(*old(p), key),
{
    let c = char_of(key);
    let show_local = if c == 'l' || c == 'L' { !p.show_local } else { p.show_local };
    let show_all = if c == 'a' || c == 'A' { !p.show_all } else { p.show_all };
    let show_bars = if c == 'v' || c == 'V' { !p.show_bars } else { p.show_bars };
    let show_used = if c == 'd' || c == 'D' { !p.show_used } else { p.show_used };
    let col_bar_end_w = if c == 'd' || c == 'D' { 0 } else { p.col_bar_end_w };
    let show_header = if c == 'g' { !p.show_header } else { p.show_header };
    let show_border = if c == 'x' || c == 'X' { !p.show_border } else { p.show_border };
    let compact = if c == 'm' || c == 'M' { !p.compact } else { p.compact };
    let col_mount_w = if c == 'm' || c == 'M' { 0 } else { p.col_mount_w };
    let full_mount = if c == 'w' || c == 'W' { !p.full_mount } else { p.full_mount };
    let show_tooltips = if c == 'T' { !p.show_tooltips } else { p.show_tooltips };
    p.show_local = show_local;
    p.show_all = show_all;
    p.show_bars = show_bars;
    p.show_used = show_used;
    p.col_bar_end_w = col_bar_end_w;
    p.show_header = show_header;
    p.show_border = show_border;
    p.compact = compact;
    p.col_mount_w = col_mount_w;
    p.full_mount = full_mount;
    p.show_tooltips = show_tooltips;
}

/// Applies a setting key to the preferences (see `toggled`).
fn toggle_pref(p: &mut Prefs, key: Key)
    ensures
        *final(p) == toggled(*old(p), key),
{
    toggle_order(p, key);
    toggle_view(p, key);
}

impl App {
    /// A key with Ctrl held in the disk view (see `disk_ctrl_step`).
    fn disk_ctrl_key(&mut self, key: Key)
        requires
            old(self).sorted_cache@.len() < 0x4000_0000,
            old(self).selected matches Some(i) ==> i < 0x4000_0000,
            keys_ready(*old(self)),
        ensures
            keys_ready(*final(self)),
            disk_ctrl_step(*old(self), key, *final(self)),
    {
        let count = self.sorted_cache.len();
        let h = if count / 2 >= 1 { count / 2 } else { 1 };
        if key == Key::Char('d') && count > 0 {
            let s = match self.selected {
                Some(i) => if i + h < count - 1 { i + h } else { count - 1 },
                None => if h < count - 1 { h } else { count - 1 },
            };
            self.selected = Some(s);
        } else if key == Key::Char('u') && count > 0 {
            let s = match self.selected {
                Some(i) => i.saturating_sub(h),
                None => 0,
            };
            self.selected = Some(s);
        } else if key == Key::Char('g') && count > 0 {
            self.selected = Some(0);
        }
    }

    /// A highlight-moving key in the disk view (see `disk_move_step`).
    fn disk_move_key(&mut self, key: Key)
        requires
            is_move_key(key),
            old(self).selected matches Some(i) ==> i < 0x4000_0000,
            keys_ready(*old(self)),
        ensures
            keys_ready(*final(self)),
            disk_move_step(*old(self), key, *final(self)),
    {
        let count = self.sorted_cache.len();
        if key == Key::Esc {
            self.selected = None;
        } else if count == 0 {
        } else if key == Key::Home {
            self.selected = Some(0);
        } else if key == Key::End || key == Key::Char('G') {
            self.selected = Some(count - 1);
        } else if key == Key::Char('j') || key == Key::Down {
            let s = match self.selected {
                Some(i) => if i + 1 < count - 1 { i + 1 } else { count - 1 },
                None => 0,
            };
            self.selected = Some(s);
        } else {
            let s = match self.selected {
                Some(i) => i.saturating_sub(1),
                None => 0,
            };
            self.selected = Some(s);
        }
    }

    /// A setting key in the disk view: the setting changes and is saved.
    fn disk_pref_key(&mut self, key: Key) -> (eff: KeyEffect)
        requires
            keys_ready(*old(self)),
        ensures
            keys_ready(*final(self)),
            *final(self) == (App { prefs: toggled(old(self).prefs, key), ..*old(self) }),
            saving(*old(self), eff),
    {
        toggle_pref(&mut self.prefs, key);
        self.save()
    }
}

/// The key under which the theme in force appears in the theme list: the active
/// custom theme's name, else the builtin palette's key.
pub open spec fn current_theme_key(p: Prefs) -> Seq<char> {
    match p.active_theme {
        Some(n) => n@,
        None => color_key(p.color_mode),
    }
}

/// `i` is the first position of key `k` in the theme list `t`, or 0 when `k` is not in it.
pub open spec fn key_found_at(t: Seq<(String, String)>, k: Seq<char>, i: int) -> bool {
    if exists|j: int| 0 <= j < t.len() && #[trigger] t[j].0@ == k {
        0 <= i < t.len() && t[i].0@ == k && forall|j: int| 0 <= j < i ==> (#[trigger] t[j]).0@ != k
    } else {
        i == 0
    }
}

/// The theme chooser opens on the theme in force, remembering it for a cancel.
pub open spec fn chooser_opened(a: App, b: App) -> bool {
    &&& exists|t: Seq<(String, String)>|
        is_theme_list(a.prefs.custom_themes@, t) && key_found_at(
            t,
            current_theme_key(a.prefs),
            b.theme_chooser.selected as int,
        )
    &&& b.theme_chooser == (ThemeChooser {
        active: true,
        selected: b.theme_chooser.selected,
        orig_color_mode: a.prefs.color_mode,
        orig_active_theme: a.prefs.active_theme,
    })
    &&& b == App { theme_chooser: b.theme_chooser, ..a }
}

/// The palette editor opens on the first slot of the palette in force.
pub open spec fn editor_opened(a: App, b: App) -> bool {
    let c = prefs_palette(a.prefs);
    &&& b.theme_edit.colors@ == seq![c.0, c.1, c.2, c.3, c.4, c.5]
    &&& b == App {
        theme_edit: ThemeEditState {
            colors: b.theme_edit.colors,
            slot: 0,
            active: true,
            naming: false,
            ..a.theme_edit
        },
        ..a
    }
}

/// Editing of the filter begins on the filter in force, with the cursor at its end.
pub open spec fn filter_opened(a: App, b: App) -> bool {
    &&& b.filter.buf@ == a.filter.text@
    &&& b.filter == (FilterState {
        active: true,
        prev: a.filter.text,
        buf: b.filter.buf,
        cursor: a.filter.text@.len() as usize,
        ..a.filter
    })
    &&& b == App { filter: b.filter, ..a }
}

/// The filter is cleared (the cursor stays where it was).
pub open spec fn filter_cleared(a: App, b: App) -> bool {
    &&& b.filter.text@.len() == 0
    &&& b.filter.buf@.len() == 0
    &&& b.filter == (FilterState { text: b.filter.text, buf: b.filter.buf, ..a.filter })
    &&& b == App { filter: b.filter, ..a }
}

/// The highlighted disk, when the highlight is on a row of the listing.
pub open spec fn highlighted(a: App) -> Option<DiskEntry> {
    match a.selected {
        Some(i) => if i < a.sorted_cache@.len() { Some(a.sorted_cache@[i as int]) } else { None },
        None => None,
    }
}

/// `Enter`: the drill-down view opens on the highlighted disk's mount point and a scan
/// of it begins.
pub open spec fn drill_opened(a: App, b: App, eff: KeyEffect) -> bool {
    match highlighted(a) {
        Some(d) => {
            &&& scan_begun(a, b, seq![d.mount], eff)
            &&& b == App {
                drill: DrillState {
                    mode: ViewMode::DrillDown,
                    path: b.drill.path,
                    entries: b.drill.entries,
                    selected: 0,
                    scanning: true,
                    scan_count: 0,
                    scan_total: 0,
                    ..a.drill
                },
                ..a
            }
        },
        None => b == a && eff is Nothing,
    }
}

/// `o`: the highlighted disk's mount point is opened.
pub open spec fn mount_opened(a: App, now: u64, b: App, eff: KeyEffect) -> bool {
    match highlighted(a) {
        Some(d) => {
            &&& status_is(b, "Opened "@ + d.mount@, now)
            &&& b == App { status_msg: b.status_msg, ..a }
            &&& if a.test_mode { eff is Nothing } else { eff matches KeyEffect::Open(p) && p@ == d.mount@ }
        },
        None => b == a && eff is Nothing,
    }
}

/// The status line asks for a disk to be highlighted first.
pub open spec fn asks_for_selection(a: App, now: u64, b: App) -> bool {
    status_is(b, "Select a disk first (j/k)"@, now) && b == App { status_msg: b.status_msg, ..a }
}

/// `y`: the highlighted disk's mount point is to be copied.
pub open spec fn copy_asked(a: App, now: u64, b: App, eff: KeyEffect) -> bool {
    if a.selected is None {
        asks_for_selection(a, now, b) && eff is Nothing
    } else {
        &&& b == a
        &&& match highlighted(a) {
            Some(d) => eff matches KeyEffect::Copy(m) && m@ == d.mount@,
            None => eff is Nothing,
        }
    }
}

/// `j` is the first position of a bookmark naming `m`.
pub open spec fn first_bookmark(bms: Seq<String>, m: Seq<char>, j: int) -> bool {
    0 <= j < bms.len() && bms[j]@ == m && forall|k: int| 0 <= k < j ==> (#[trigger] bms[k])@ != m
}

/// The bookmark of mount point `m` is removed if there is one (the first, if several)
/// and added at the end otherwise; the status line says which, and the preferences are
/// saved.
pub open spec fn bookmark_flipped(a: App, m: String, now: u64, b: App, eff: KeyEffect) -> bool {
    let bms = a.prefs.bookmarks@;
    &&& if exists|j: int| first_bookmark(bms, m@, j) {
        &&& exists|j: int| first_bookmark(bms, m@, j) && b.prefs.bookmarks@ == bms.remove(j)
        &&& status_is(b, "Unpinned "@ + m@, now)
    } else {
        &&& b.prefs.bookmarks@ == bms.push(m)
        &&& status_is(b, "Pinned \u{2605} "@ + m@, now)
    }
    &&& b.prefs == (Prefs { bookmarks: b.prefs.bookmarks, ..a.prefs })
    &&& b == App { prefs: b.prefs, status_msg: b.status_msg, ..a }
    &&& saving(a, eff)
}

/// `B`: the highlighted disk's bookmark is flipped (see `bookmark_flipped`).
pub open spec fn bookmark_toggled(a: App, now: u64, b: App, eff: KeyEffect) -> bool {
    if a.selected is None {
        asks_for_selection(a, now, b) && eff is Nothing
    } else {
        match highlighted(a) {
            Some(d) => bookmark_flipped(a, d.mount, now, b, eff),
            None => b == a && eff is Nothing,
        }
    }
}

/// The other keys of the disk view: `q` quits, `h` and `?` show the help, `p` pauses,
/// `c` opens the theme chooser, `C` the palette editor, `/` edits the filter, `0`
/// clears it; `Enter` drills into the highlighted disk, `o` opens it, `e` asks for the
/// report, `y` copies its mount point, `B` toggles its bookmark.
pub open spec fn disk_action_step(a: App, key: Key, now: u64, b: App, eff: KeyEffect) -> bool {
    if key == Key::Char('q') || key == Key::Char('Q') {
        b == App { quit: true, ..a } && eff is Nothing
    } else if key == Key::Char('h') || key == Key::Char('H') || key == Key::Char('?') {
        b == App { show_help: true, ..a } && eff is Nothing
    } else if key == Key::Char('p') || key == Key::Char('P') {
        b == App { paused: !a.paused, ..a } && eff is Nothing
    } else if key == Key::Char('c') {
        chooser_opened(a, b) && eff is Nothing
    } else if key == Key::Char('C') {
        editor_opened(a, b) && eff is Nothing
    } else if key == Key::Char('/') {
        filter_opened(a, b) && eff is Nothing
    } else if key == Key::Char('0') {
        filter_cleared(a, b) && eff is Nothing
    } else if key == Key::Enter {
        drill_opened(a, b, eff)
    } else if key == Key::Char('o') || key == Key::Char('O') {
        mount_opened(a, now, b, eff)
    } else if key == Key::Char('e') || key == Key::Char('E') {
        b == a && eff is Export
    } else if key == Key::Char('y') || key == Key::Char('Y') {
        copy_asked(a, now, b, eff)
    } else if key == Key::Char('B') {
        bookmark_toggled(a, now, b, eff)
    } else {
        b == a && eff is Nothing
    }
}

/// A key in the disk view.
pub open spec fn disk_step(a: App, key: Key, ctrl: bool, now: u64, b: App, eff: KeyEffect) -> bool {
    if ctrl {
        disk_ctrl_step(a, key, b) && eff is Nothing
    } else if is_move_key(key) {
        disk_move_step(a, key, b) && eff is Nothing
    } else if is_pref_key(key) {
        b == App { prefs: toggled(a.prefs, key), ..a } && saving(a, eff)
    } else {
        disk_action_step(a, key, now, b, eff)
    }
}

/// What a key decides, the listing aside: the filter line, the help screen, the theme
/// chooser, the palette editor (naming or not) and the drill-down view each take the
/// keys while they are up, in that order; the disk view takes them otherwise.
pub open spec fn key_decision(a: App, key: Key, ctrl: bool, now: u64, b: App, eff: KeyEffect) -> bool {
    if a.filter.active {
        filter_step(a, key, ctrl, b) && eff is Nothing
    } else if a.show_help {
        help_step(a, key, b) && eff is Nothing
    } else if a.theme_chooser.active {
        chooser_step(a, key, now, b, eff)
    } else if a.theme_edit.active {
        if a.theme_edit.naming {
            naming_step(a, key, ctrl, now, b, eff)
        } else {
            editor_step(a, key, b) && eff is Nothing
        }
    } else if a.drill.mode == ViewMode::DrillDown {
        drill_step(a, key, now, b, eff)
    } else {
        disk_step(a, key, ctrl, now, b, eff)
    }
}

/// The listing after a change of state `m`: recomputed from the mounts, the
/// preferences and the filter (see `listing_ok`) when the mounts can be sorted as the
/// preferences ask, kept as it was otherwise; nothing else changes.
pub open spec fn relisted(m: App, b: App) -> bool {
    &&& b == (App { sorted_cache: b.sorted_cache, ..m })
    &&& if sortable(m.disks@, m.prefs.sort_mode) { listing_ok(b) } else { b.sorted_cache == m.sorted_cache }
}

/// What a key does: what it decides (see `key_decision`), after which the listing is
/// recomputed from the new preferences and filter (see `relisted`).
pub open spec fn key_step(a: App, key: Key, ctrl: bool, now: u64, b: App, eff: KeyEffect) -> bool {
    let m = App { sorted_cache: a.sorted_cache, ..b };
    key_decision(a, key, ctrl, now, m, eff) && relisted(m, b)
}

/// The first position of a bookmark naming `m`, if there is one.
fn bookmark_index(bms: &Vec<String>, m: &String) -> (r: Option<usize>)
    ensures
        r matches Some(j) ==> first_bookmark(bms@, m@, j as int),
        r is None ==> forall|j: int| !first_bookmark(bms@, m@, j),
{
    let mut j: usize = 0;
    while j < bms.len()
        invariant
            j <= bms@.len(),
            forall|k: int| 0 <= k < j ==> (#[trigger] bms@[k])@ != m@,
        decreases bms@.len() - j,
    {
        if bms[j] == *m {
            return Some(j);
        }
        j = j + 1;
    }
    assert forall|k: int| !first_bookmark(bms@, m@, k) by {
        if 0 <= k < bms@.len() {
            assert(bms@[k]@ != m@);
        }
    }
    None
}

impl App {
    /// Opens the theme chooser on the theme in force (see `chooser_opened`).
    fn open_chooser(&mut self)
        requires
            keys_ready(*old(self)),
        ensures
            keys_ready(*final(self)),
            chooser_opened(*old(self), *final(self)),
    {
        let themes = self.all_themes();
        let key = match &self.prefs.active_theme {
            Some(name) => name.clone(),
            None => self.prefs.color_mode.key().to_owned(),
        };
        let mut i: usize = 0;
        while i < themes.len()
            invariant
                i <= themes@.len(),
                forall|j: int| 0 <= j < i ==> (#[trigger] themes@[j]).0@ != key@,
            ensures
                i <= themes@.len(),
                forall|j: int| 0 <= j < i ==> (#[trigger] themes@[j]).0@ != key@,
                i < themes@.len() ==> themes@[i as int].0@ == key@,
            decreases themes@.len() - i,
        {
            if themes[i].0 == key {
                break;
            }
            i = i + 1;
        }
        let sel = if i < themes.len() { i } else { 0 };
        assert(key_found_at(themes@, current_theme_key(self.prefs), sel as int));
        self.theme_chooser.selected = sel;
        self.theme_chooser.orig_color_mode = self.prefs.color_mode;
        self.theme_chooser.orig_active_theme = match &self.prefs.active_theme {
            Some(t) => Some(t.clone()),
            None => None,
        };
        self.theme_chooser.active = true;
    }

    /// Opens the palette editor on the palette in force (see `editor_opened`).
    fn open_editor(&mut self)
        requires
            keys_ready(*old(self)),
        ensures
            keys_ready(*final(self)),
            editor_opened(*old(self), *final(self)),
    {
        let c = palette_for_prefs(&self.prefs);
        self.theme_edit.colors = [c.0, c.1, c.2, c.3, c.4, c.5];
        assert(self.theme_edit.colors@ =~= seq![c.0, c.1, c.2, c.3, c.4, c.5]);
        self.theme_edit.slot = 0;
        self.theme_edit.active = true;
        self.theme_edit.naming = false;
    }

    /// Begins editing the filter (see `filter_opened`).
    fn open_filter(&mut self)
        requires
            keys_ready(*old(self)),
        ensures
            keys_ready(*final(self)),
            filter_opened(*old(self), *final(self)),
    {
        self.filter.active = true;
        self.filter.prev = self.filter.text.clone();
        self.filter.buf = str_chars(self.filter.text.as_str());
        self.filter.cursor = self.filter.buf.len();
    }

    /// Clears the filter (see `filter_cleared`).
    fn clear_filter(&mut self)
        requires
            !old(self).filter.active,
            keys_ready(*old(self)),
        ensures
            keys_ready(*final(self)),
            filter_cleared(*old(self), *final(self)),
    {
        self.filter.text = String::new();
        self.filter.buf = Vec::new();
    }

    /// The mount point of the highlighted disk, if the highlight is on a row.
    fn highlighted_mount(&self) -> (r: Option<String>)
        ensures
            r == match highlighted(*self) {
                Some(d) => Some(d.mount),
                None => None,
            },
    {
        match self.selected {
            Some(i) => if i < self.sorted_cache.len() { Some(self.sorted_cache[i].mount.clone()) } else { None },
            None => None,
        }
    }

    /// Opens the drill-down view on the highlighted disk (see `drill_opened`).
    fn open_drill(&mut self) -> (eff: KeyEffect)
        requires
            keys_ready(*old(self)),
        ensures
            keys_ready(*final(self)),
            drill_opened(*old(self), *final(self), eff),
    {
        self.drill_into_highlight()
    }

    /// Opens the drill-down view on the highlighted disk (see `drill_opened`).
    pub(crate) fn drill_into_highlight(&mut self) -> (eff: KeyEffect)
        ensures
            drill_opened(*old(self), *final(self), eff),
    {
        match self.highlighted_mount() {
            Some(mount) => {
                self.drill.mode = ViewMode::DrillDown;
                self.drill.path = vec![mount.clone()];
                assert(self.drill.path@ =~= seq![mount]);
                self.drill.selected = 0;
                self.start_drill_scan(mount)
            },
            None => KeyEffect::Nothing,
        }
    }

    /// Opens the highlighted disk's mount point (see `mount_opened`).
    fn open_mount(&mut self, now: u64) -> (eff: KeyEffect)
        requires
            keys_ready(*old(self)),
        ensures
            keys_ready(*final(self)),
            mount_opened(*old(self), now, *final(self), eff),
    {
        match self.highlighted_mount() {
            Some(mount) => self.open_path(mount, now),
            None => KeyEffect::Nothing,
        }
    }

    /// Sets the status line to `msg` at `now`.
    fn say(&mut self, msg: String, now: u64)
        ensures
            status_is(*final(self), msg@, now),
            *final(self) == (App { status_msg: final(self).status_msg, ..*old(self) }),
    {
        self.status_msg = Some((msg, now));
    }

    /// Asks to copy the highlighted disk's mount point (see `copy_asked`).
    fn ask_copy(&mut self, now: u64) -> (eff: KeyEffect)
        requires
            keys_ready(*old(self)),
        ensures
            keys_ready(*final(self)),
            copy_asked(*old(self), now, *final(self), eff),
    {
        if self.selected.is_none() {
            self.say(String::from_str("Select a disk first (j/k)"), now);
            return KeyEffect::Nothing;
        }
        match self.highlighted_mount() {
            Some(mount) => KeyEffect::Copy(mount),
            None => KeyEffect::Nothing,
        }
    }

    /// Toggles the highlighted disk's bookmark (see `bookmark_toggled`).
    fn toggle_bookmark(&mut self, now: u64) -> (eff: KeyEffect)
        requires
            keys_ready(*old(self)),
        ensures
            keys_ready(*final(self)),
            bookmark_toggled(*old(self), now, *final(self), eff),
    {
        if self.selected.is_none() {
            self.say(String::from_str("Select a disk first (j/k)"), now);
            return KeyEffect::Nothing;
        }
        let mount = match self.highlighted_mount() {
            Some(m) => m,
            None => return KeyEffect::Nothing,
        };
        self.flip_bookmark(mount, now)
    }

    /// Flips the bookmark of `mount` (see `bookmark_flipped`).
    fn flip_bookmark(&mut self, mount: String, now: u64) -> (eff: KeyEffect)
        ensures
            bookmark_flipped(*old(self), mount, now, *final(self), eff),
    {
        match bookmark_index(&self.prefs.bookmarks, &mount) {
            Some(j) => self.unpin(j, mount, now),
            None => self.pin(mount, now),
        }
    }

    /// Removes bookmark `j`, naming `mount` on the status line, and saves.
    fn unpin(&mut self, j: usize, mount: String, now: u64) -> (eff: KeyEffect)
        requires
            j < old(self).prefs.bookmarks@.len(),
        ensures
            final(self).prefs.bookmarks@ == old(self).prefs.bookmarks@.remove(j as int),
            status_is(*final(self), "Unpinned "@ + mount@, now),
            final(self).prefs == (Prefs { bookmarks: final(self).prefs.bookmarks, ..old(self).prefs }),
            *final(self) == (App { prefs: final(self).prefs, status_msg: final(self).status_msg, ..*old(self) }),
            saving(*old(self), eff),
    {
        self.prefs.bookmarks.remove(j);
        let mut msg = String::from_str("Unpinned ");
        msg.append(mount.as_str());
        self.say(msg, now);
        self.save()
    }

    /// Adds a bookmark for `mount`, says so on the status line, and saves.
    fn pin(&mut self, mount: String, now: u64) -> (eff: KeyEffect)
        ensures
            final(self).prefs.bookmarks@ == old(self).prefs.bookmarks@.push(mount),
            status_is(*final(self), "Pinned \u{2605} "@ + mount@, now),
            final(self).prefs == (Prefs { bookmarks: final(self).prefs.bookmarks, ..old(self).prefs }),
            *final(self) == (App { prefs: final(self).prefs, status_msg: final(self).status_msg, ..*old(self) }),
            saving(*old(self), eff),
    {
        let mut msg = String::from_str("Pinned \u{2605} ");
        msg.append(mount.as_str());
        self.prefs.bookmarks.push(mount);
        self.say(msg, now);
        self.save()
    }

    /// Another key of the disk view (see `disk_action_step`).
    fn disk_action_key(&mut self, key: Key, now: u64) -> (eff: KeyEffect)
        requires
            !old(self).filter.active,
            keys_ready(*old(self)),
        ensures
            keys_ready(*final(self)),
            disk_action_step(*old(self), key, now, *final(self), eff),
    {
        if key == Key::Char('q') || key == Key::Char('Q') {
            self.quit = true;
            KeyEffect::Nothing
        } else if key == Key::Char('h') || key == Key::Char('H') || key == Key::Char('?') {
            self.show_help = true;
            KeyEffect::Nothing
        } else if key == Key::Char('p') || key == Key::Char('P') {
            self.paused = !self.paused;
            KeyEffect::Nothing
        } else if key == Key::Char('c') {
            self.open_chooser();
            KeyEffect::Nothing
        } else if key == Key::Char('C') {
            self.open_editor();
            KeyEffect::Nothing
        } else if key == Key::Char('/') {
            self.open_filter();
            KeyEffect::Nothing
        } else if key == Key::Char('0') {
            self.clear_filter();
            KeyEffect::Nothing
        } else if key == Key::Enter {
            self.open_drill()
        } else if key == Key::Char('o') || key == Key::Char('O') {
            self.open_mount(now)
        } else if key == Key::Char('e') || key == Key::Char('E') {
            KeyEffect::Export
        } else if key == Key::Char('y') || key == Key::Char('Y') {
            self.ask_copy(now)
        } else if key == Key::Char('B') {
            self.toggle_bookmark(now)
        } else {
            KeyEffect::Nothing
        }
    }
}

impl App {
    /// A key in the disk view (see `disk_step`).
    fn disk_key(&mut self, key: Key, ctrl: bool, now: u64) -> (eff: KeyEffect)
        requires
            !old(self).filter.active,
            old(self).sorted_cache@.len() < 0x4000_0000,
            old(self).selected matches Some(i) ==> i < 0x4000_0000,
            keys_ready(*old(self)),
        ensures
            final(self).sorted_cache == old(self).sorted_cache,
            keys_ready(*final(self)),
            disk_step(*old(self), key, ctrl, now, *final(self), eff),
    {
        if ctrl {
            self.disk_ctrl_key(key);
            KeyEffect::Nothing
        } else if key == Key::Esc || key == Key::Home || key == Key::End || key == Key::Char('G') || key
            == Key::Char('j') || key == Key::Down || key == Key::Char('k') || key == Key::Up {
            self.disk_move_key(key);
            KeyEffect::Nothing
        } else if is_setting_key(key) {
            self.disk_pref_key(key)
        } else {
            self.disk_action_key(key, now)
        }
    }

    /// Whether the state is one that `handle_key` takes (see `keys_ready`).
    pub fn accepts_keys(&self) -> (r: bool)
        ensures
            r == keys_ready(*self),
    {
        (!self.filter.active || self.filter.cursor <= self.filter.buf.len()) && (!self.theme_edit.naming
            || self.theme_edit.cursor <= self.theme_edit.name.len()) && (!self.theme_edit.active
            || self.theme_edit.slot < 6) && crate::prefs::themes_unique(&self.prefs.custom_themes)
            && self.disks.len() < 0x4000_0000 && self.sorted_cache.len() < 0x4000_0000 && match self.selected {
            Some(i) => i < 0x4000_0000,
            None => true,
        } && self.theme_chooser.selected < usize::MAX && self.drill.selected < usize::MAX
    }

    /// Handles a key press at time `now_ms` (see `key_step`) and returns the outside
    /// work it asks for.
    pub fn handle_key(&mut self, key: Key, ctrl: bool, now_ms: u64) -> (eff: KeyEffect)
        requires
            keys_ready(*old(self)),
        ensures
            key_step(*old(self), key, ctrl, now_ms, *final(self), eff),
            keys_ready(*final(self)),
    {
        let eff = self.decide_key(key, ctrl, now_ms);
        self.relist();
        proof {
            if listing_ok(*self) {
                lemma_listing_len(*self);
            }
        }
        eff
    }

    /// Recomputes the listing where the mounts can be sorted as the preferences ask
    /// (see `relisted`).
    pub fn relist(&mut self)
        ensures
            relisted(*old(self), *final(self)),
    {
        if all_sortable(&self.disks, self.prefs.sort_mode) {
            self.update_sorted();
        }
    }

    /// What a key decides (see `key_decision`).
    fn decide_key(&mut self, key: Key, ctrl: bool, now_ms: u64) -> (eff: KeyEffect)
        requires
            keys_ready(*old(self)),
        ensures
            key_decision(*old(self), key, ctrl, now_ms, *final(self), eff),
            keys_ready(*final(self)),
            final(self).sorted_cache == old(self).sorted_cache,
    {
        if self.filter.active {
            self.filter_key(key, ctrl);
            KeyEffect::Nothing
        } else if self.show_help {
            self.help_key(key);
            KeyEffect::Nothing
        } else if self.theme_chooser.active {
            self.chooser_key(key, now_ms)
        } else if self.theme_edit.active {
            if self.theme_edit.naming {
                self.naming_key(key, ctrl, now_ms)
            } else {
                self.editor_key(key);
                KeyEffect::Nothing
            }
        } else if self.drill.mode == ViewMode::DrillDown {
            self.drill_key(key, now_ms)
        } else {
            self.disk_key(key, ctrl, now_ms)
        }
    }
}

/// Whether `key` moves the chooser's highlight (see `is_chooser_nav`).
fn is_nav(key: Key) -> (r: bool)
    ensures
        r == is_chooser_nav(key),
{
    key == Key::Char('j') || key == Key::Down || key == Key::Char('k') || key == Key::Up || key == Key::Home
        || key == Key::Char('g') || key == Key::End || key == Key::Char('G')
}

/// Whether `key` changes a saved setting in the disk view (see `is_pref_key`).
fn is_setting_key(key: Key) -> (r: bool)
    ensures
        r == is_pref_key(key),
{
    let c = char_of(key);
    key == Key::Char(c) && (c == 'l' || c == 'L' || c == 'a' || c == 'A' || c == 'r' || c == 'R' || c == 'n'
        || c == 'N' || c == 'u' || c == 'U' || c == 's' || c == 'S' || c == 'b' || c == 'v' || c == 'V' || c
        == 'd' || c == 'D' || c == 'g' || c == 'x' || c == 'X' || c == 'm' || c == 'M' || c == 'w' || c == 'W'
        || c == 'i' || c == 'I' || c == 't' || c == 'T' || c == 'z' || c == 'Z' || c == 'f' || c == 'F')
}

// ─── Outcomes of outside work ───────────────────────────────────────────────

/// `items` joined with `sep` between them.
pub open spec fn joined(items: Seq<Seq<char>>, sep: Seq<char>) -> Seq<char>
    decreases items.len(),
{
    if items.len() == 0 {
        Seq::empty()
    } else if items.len() == 1 {
        items[0]
    } else {
        joined(items.drop_last(), sep) + sep + items.last()
    }
}

/// Whether mount point `m` is among `mounts`.
pub open spec fn among(mounts: Seq<String>, m: Seq<char>) -> bool {
    exists|i: int| 0 <= i < mounts.len() && #[trigger] mounts[i]@ == m
}

/// The labels of the mounts over the threshold that were not over it before.
pub open spec fn fresh_alerts(before: Seq<String>, over: Seq<(String, String)>) -> Seq<Seq<char>> {
    over.filter(|o: (String, String)| !among(before, o.0@)).map_values(|o: (String, String)| o.1@)
}

impl App {
    /// Reports how the clipboard copy of `mount` asked for by `KeyEffect::Copy` went.
    pub fn copy_done(&mut self, mount: &str, outcome: Result<(), String>, now_ms: u64)
        ensures
            match outcome {
                Ok(_) => status_is(*final(self), "Copied: "@ + mount@, now_ms),
                Err(e) => status_is(*final(self), "Copy failed: "@ + e@, now_ms),
            },
            *final(self) == (App { status_msg: final(self).status_msg, ..*old(self) }),
    {
        let msg = match outcome {
            Ok(_) => String::from_str("Copied: ").concat(mount),
            Err(e) => String::from_str("Copy failed: ").concat(e.as_str()),
        };
        self.status_msg = Some((msg, now_ms));
    }

    /// Reports how writing the report asked for by `KeyEffect::Export` went: the path
    /// written, or the error.
    pub fn export_done(&mut self, outcome: Result<String, String>, now_ms: u64)
        ensures
            match outcome {
                Ok(p) => status_is(*final(self), "Exported to "@ + p@, now_ms),
                Err(e) => status_is(*final(self), "Export failed: "@ + e@, now_ms),
            },
            *final(self) == (App { status_msg: final(self).status_msg, ..*old(self) }),
    {
        let msg = match outcome {
            Ok(p) => String::from_str("Exported to ").concat(p.as_str()),
            Err(e) => String::from_str("Export failed: ").concat(e.as_str()),
        };
        self.status_msg = Some((msg, now_ms));
    }

    /// Records the progress of the running scan: `count` of `total` entries done.
    pub fn scan_progress(&mut self, count: usize, total: usize)
        ensures
            *final(self) == (App {
                drill: DrillState { scan_count: count, scan_total: total, ..old(self).drill },
                ..*old(self)
            }),
    {
        self.drill.scan_count = count;
        self.drill.scan_total = total;
    }

    /// Takes the result of the scan asked for by `KeyEffect::Scan`: while a scan runs,
    /// its entries become the listing, sorted (see `App::sort_drill_entries`), and the
    /// scan is over; otherwise nothing changes.
    pub fn scan_done(&mut self, entries: Vec<DirEntry>)
        ensures
            if old(self).drill.scanning {
                &&& is_drill_order(entries@, old(self).drill.sort, old(self).drill.sort_rev, final(self).drill.entries@)
                &&& final(self).drill == (DrillState {
                    entries: final(self).drill.entries,
                    scanning: false,
                    selected: 0,
                    scroll_offset: 0,
                    ..old(self).drill
                })
                &&& *final(self) == (App { drill: final(self).drill, ..*old(self) })
            } else {
                *final(self) == *old(self)
            },
    {
        if self.drill.scanning {
            self.drill.entries = entries;
            self.drill.scanning = false;
            self.sort_drill_entries();
        }
    }

    /// Takes freshly collected mounts: unless paused, they replace the old ones and the
    /// listing is recomputed (see `App::update_sorted`).
    pub fn refresh(&mut self, disks: Vec<DiskEntry>)
        requires
            sortable(disks@, old(self).prefs.sort_mode),
        ensures
            if old(self).paused {
                *final(self) == *old(self)
            } else {
                &&& final(self).disks@ == disks@
                &&& *final(self) == (App { disks: final(self).disks, sorted_cache: final(self).sorted_cache, ..*old(self) })
                &&& listing_ok(*final(self))
            },
    {
        if self.paused {
            return;
        }
        self.disks = disks;
        self.update_sorted();
    }

    /// Takes the mounts now over the warning threshold, each with its label for the
    /// status line. Those that were not over it at the last call raise an alert: the
    /// border flashes from `now_ms` and the status line lists their labels. Returns
    /// whether there was such a mount (the caller rings the bell).
    pub fn note_alerts(&mut self, over: Vec<(String, String)>, now_ms: u64) -> (rang: bool)
        ensures
            rang == (fresh_alerts(old(self).alert.mounts@, over@).len() > 0),
            final(self).alert.mounts@ == over@.map_values(|o: (String, String)| o.0),
            rang ==> final(self).alert.flash_ms == Some(now_ms) && status_is(
                *final(self),
                "\u{26A0} ALERT: "@ + joined(fresh_alerts(old(self).alert.mounts@, over@), ", "@),
                now_ms,
            ),
            !rang ==> final(self).alert.flash_ms == old(self).alert.flash_ms && final(self).status_msg
                == old(self).status_msg,
            *final(self) == (App {
                alert: final(self).alert,
                status_msg: final(self).status_msg,
                ..*old(self)
            }),
    {
        let ghost before = self.alert.mounts@;
        let ghost pred = |o: (String, String)| !among(before, o.0@);
        let mut msg = String::from_str("\u{26A0} ALERT: ");
        let mut fresh: usize = 0;
        let mut mounts: Vec<String> = Vec::new();
        let mut i: usize = 0;
        while i < over.len()
            invariant
                before == self.alert.mounts@,
                pred == (|o: (String, String)| !among(before, o.0@)),
                i <= over@.len(),
                fresh == over@.subrange(0, i as int).filter(pred).len(),
                fresh <= i,
                msg@ == "\u{26A0} ALERT: "@ + joined(over@.subrange(0, i as int).filter(pred).map_values(|o: (String, String)| o.1@), ", "@),
                mounts@ == over@.subrange(0, i as int).map_values(|o: (String, String)| o.0),
            decreases over@.len() - i,
        {
            let m = &over[i].0;
            let mut known = false;
            let mut j: usize = 0;
            while j < self.alert.mounts.len()
                invariant
                    before == self.alert.mounts@,
                    j <= before.len(),
                    known == exists|k: int| 0 <= k < j && #[trigger] before[k]@ == m@,
                decreases before.len() - j,
            {
                if self.alert.mounts[j] == *m {
                    known = true;
                }
                j = j + 1;
            }
            let ghost prev = over@.subrange(0, i as int).filter(pred);
            proof {
                reveal(Seq::filter);
                assert(over@.subrange(0, i + 1).drop_last() =~= over@.subrange(0, i as int));
            }
            if !known {
                if fresh > 0 {
                    msg.append(", ");
                }
                msg.append(over[i].1.as_str());
                fresh = fresh + 1;
                proof {
                    let items = over@.subrange(0, i + 1).filter(pred).map_values(|o: (String, String)| o.1@);
                    assert(items.drop_last() =~= prev.map_values(|o: (String, String)| o.1@));
                }
            } else {
                assert(over@.subrange(0, i + 1).filter(pred) =~= prev);
            }
            mounts.push(over[i].0.clone());
            i = i + 1;
            assert(mounts@ =~= over@.subrange(0, i as int).map_values(|o: (String, String)| o.0));
        }
        assert(over@.subrange(0, over@.len() as int) =~= over@);
        self.alert.mounts = mounts;
        if fresh > 0 {
            self.alert.flash_ms = Some(now_ms);
            self.status_msg = Some((msg, now_ms));
        }
        fresh > 0
    }
}

} // verus!
