//! Widths of the disk table's columns.
use vstd::prelude::*;
use crate::app::App;
use crate::helpers::{bytes_text, format_bytes, lemma_bytes_text_len};
use crate::prefs::Prefs;
use crate::types::{DiskEntry, UnitMode};

verus! {

/// Width of the right-hand (percentage and sizes) column when no disk list is at hand:
/// the user's width, at least 5, or a default that depends on whether sizes are shown.
pub open spec fn right_col_static(prefs: Prefs) -> u16 {
    if prefs.col_bar_end_w > 0 {
        if prefs.col_bar_end_w >= 5 { prefs.col_bar_end_w } else { 5 }
    } else if prefs.show_used {
        22
    } else {
        7
    }
}

/// Width of the right-hand column when no disk list is at hand (see
/// `right_col_static`).
pub fn right_col_width_static(prefs: &Prefs) -> (r: u16)
    ensures
        r == right_col_static(*prefs),
{
    if prefs.col_bar_end_w > 0 {
        return if prefs.col_bar_end_w >= 5 { prefs.col_bar_end_w } else { 5 };
    }
    if prefs.show_used { 22 } else { 7 }
}

/// Width of the mount column for a table `inner_w` cells wide: the user's width held
/// between 8 and `inner_w - 20`; otherwise 16 when compact, else a third of the width
/// but at least 12.
pub open spec fn mount_col_for(inner_w: int, prefs: Prefs) -> int {
    if prefs.col_mount_w > 0 {
        let hi = inner_w - 20;
        if prefs.col_mount_w < 8 { 8 } else if prefs.col_mount_w > hi { hi } else { prefs.col_mount_w as int }
    } else if prefs.compact {
        16
    } else if inner_w / 3 >= 12 {
        inner_w / 3
    } else {
        12
    }
}

/// Width of the mount column for a table `inner_w` cells wide (see `mount_col_for`).
/// A user's width needs a table at least 28 cells wide.
pub fn mount_col_width(inner_w: u16, prefs: &Prefs) -> (r: usize)
    requires
        prefs.col_mount_w > 0 ==> inner_w >= 28,
    ensures
        r == mount_col_for(inner_w as int, *prefs),
{
    if prefs.col_mount_w > 0 {
        let hi = (inner_w as usize) - 20;
        let w = prefs.col_mount_w as usize;
        return if w < 8 { 8 } else if w > hi { hi } else { w };
    }
    if prefs.compact {
        16
    } else {
        let third = inner_w as usize / 3;
        if third >= 12 { third } else { 12 }
    }
}

/// The longest rendering, at least 4 characters, of the used (or total) sizes of `ds`.
pub open spec fn widest(ds: Seq<DiskEntry>, mode: UnitMode, used: bool) -> nat
    decreases ds.len(),
{
    if ds.len() == 0 {
        4
    } else {
        let w = widest(ds.drop_last(), mode, used);
        let d = ds.last();
        let l = bytes_text(if used { d.used as nat } else { d.total as nat }, mode).len();
        if l > w { l } else { w }
    }
}

/// Width of the right-hand column for the listing `ds`: the user's width (at least 5);
/// 7 without sizes; else room for the percentage, the widest used and total sizes and
/// the separators, taken modulo 2^16, and at least 22.
pub open spec fn right_col_for(prefs: Prefs, ds: Seq<DiskEntry>) -> u16 {
    if prefs.col_bar_end_w > 0 {
        if prefs.col_bar_end_w >= 5 { prefs.col_bar_end_w } else { 5 }
    } else if !prefs.show_used {
        7
    } else {
        let pct_w: nat = if prefs.col_pct_w > 0 { prefs.col_pct_w as nat } else { 5 };
        let needed = (pct_w + 4 + widest(ds, prefs.unit_mode, true) + widest(ds, prefs.unit_mode, false))
            % 65536;
        if needed >= 22 { needed as u16 } else { 22 }
    }
}

/// No size is printed wider than 21 characters, so neither is the widest.
proof fn lemma_widest_bound(ds: Seq<DiskEntry>, mode: UnitMode, used: bool)
    ensures
        widest(ds, mode, used) <= 21,
    decreases ds.len(),
{
    if ds.len() > 0 {
        lemma_widest_bound(ds.drop_last(), mode, used);
        let d = ds.last();
        lemma_bytes_text_len(if used { d.used as nat } else { d.total as nat }, mode);
    }
}

/// The right-hand column is never narrower than the width used when no listing is at
/// hand, and is that width with the user's width or without sizes; otherwise, where the
/// percentage, the widest used and total sizes and the separators take fewer than 2^16
/// cells, as they always do with a percentage column narrower than 65000, it is
/// exactly that room, but at least 22.
pub proof fn law_right_col_at_least_static(prefs: Prefs, ds: Seq<DiskEntry>)
    ensures
        right_col_for(prefs, ds) >= right_col_static(prefs),
        prefs.col_bar_end_w > 0 || !prefs.show_used ==> right_col_for(prefs, ds) == right_col_static(prefs),
        ({
            let pct_w: nat = if prefs.col_pct_w > 0 { prefs.col_pct_w as nat } else { 5 };
            let room = pct_w + 4 + widest(ds, prefs.unit_mode, true) + widest(ds, prefs.unit_mode, false);
            &&& prefs.col_pct_w < 65000 ==> room < 65536
            &&& prefs.col_bar_end_w == 0 && prefs.show_used && room < 65536 ==> right_col_for(prefs, ds) == if room
                >= 22 { room } else { 22 }
        }),
{
    lemma_widest_bound(ds, prefs.unit_mode, true);
    lemma_widest_bound(ds, prefs.unit_mode, false);
}

/// Width of the right-hand column for the app's listing (see `right_col_for`).
pub fn right_col_width(app: &App) -> (r: u16)
    ensures
        r == right_col_for(app.prefs, app.sorted_cache@),
{
    if app.prefs.col_bar_end_w > 0 {
        return if app.prefs.col_bar_end_w >= 5 { app.prefs.col_bar_end_w } else { 5 };
    }
    if !app.prefs.show_used {
        return 7;
    }
    let disks = app.sorted_disks();
    let mode = app.prefs.unit_mode;
    let mut mu: usize = 4;
    let mut mt: usize = 4;
    let mut i: usize = 0;
    while i < disks.len()
        invariant
            i <= disks@.len(),
            mu == widest(disks@.subrange(0, i as int), mode, true),
            mt == widest(disks@.subrange(0, i as int), mode, false),
        decreases disks@.len() - i,
    {
        let lu = format_bytes(disks[i].used, mode).as_str().unicode_len();
        let lt = format_bytes(disks[i].total, mode).as_str().unicode_len();
        if lu > mu {
            mu = lu;
        }
        if lt > mt {
            mt = lt;
        }
        i = i + 1;
        assert(disks@.subrange(0, i as int).drop_last() =~= disks@.subrange(0, i - 1));
    }
    assert(disks@.subrange(0, disks@.len() as int) =~= disks@);
    let pct_w: u128 = if app.prefs.col_pct_w > 0 { app.prefs.col_pct_w as u128 } else { 5 };
    let needed = (pct_w + 4 + mu as u128 + mt as u128) % 65536;
    if needed >= 22 { needed as u16 } else { 22 }
}

} // verus!
