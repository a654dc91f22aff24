//! Properties that hold of the library as a whole: of several calls, or of every input.
use vstd::prelude::*;
use crate::app::{
    disk_groups, disk_keys, disk_row_at, is_bookmarked, is_listing_of, listing_ok, scrolled_to, sortable,
    zone_at, App,
};
use crate::cli::{overridden, CliModel};
use crate::keys::{first_bookmark, highlighted, key_step, Key};
use crate::order::{is_ranked_order, lemma_lex_total, lemma_ranked_irreflexive, lex_lt, ranked_before};
use crate::palette::{find_theme, stores_theme};
use crate::prefs::Prefs;
use crate::types::{
    bar_flag, bar_from, bar_next, color_at, color_flag, color_from, color_index, sort_flag, sort_from,
    unit_flag, unit_from, unit_next, BarStyle, ColorMode, DiskEntry, HoverZone, SortMode, ThemeColors,
    UnitMode, ViewMode,
};

verus! {

/// The palette after `m` in the cycling order (what `ColorMode::next` gives).
#[verifier::opaque]
pub open spec fn next_color(m: ColorMode) -> ColorMode {
    color_at(color_index(m) + 1)
}

/// The palette reached from `m` by stepping to the next one `k` times.
pub open spec fn color_steps(m: ColorMode, k: nat) -> ColorMode
    decreases k,
{
    if k == 0 {
        m
    } else {
        next_color(color_steps(m, (k - 1) as nat))
    }
}

/// How many steps from palette `m` lead to palette `p` (fewer than thirty).
pub open spec fn steps_between(m: ColorMode, p: ColorMode) -> nat {
    ((color_index(p) - color_index(m) + 30) % 30) as nat
}

/// The palette at a position of the cycle, kept folded in the proofs below.
#[verifier::opaque]
spec fn at(i: int) -> ColorMode {
    color_at(i)
}

/// A palette's position is where it stands in the cycling order.
proof fn lemma_index_of_position(x: int)
    requires
        x >= 0,
    ensures
        color_index(at(x)) == x % 30,
{
    reveal(at);
}

/// Positions equal modulo thirty hold the same palette.
proof fn lemma_position_mod(a: int, b: int)
    requires
        a % 30 == b % 30,
    ensures
        at(a) == at(b),
{
    reveal(at);
}

/// Each palette stands at its own position.
proof fn lemma_position_of_index(m: ColorMode)
    ensures
        at(color_index(m)) == m,
{
    reveal(at);
}

/// The palette after the one at position `x` is the one at position `x + 1`.
proof fn lemma_next_position(x: int)
    requires
        x >= 0,
    ensures
        next_color(at(x)) == at(x + 1),
{
    lemma_index_of_position(x);
    assert(next_color(at(x)) == at(x % 30 + 1)) by {
        reveal(next_color);
        reveal(at);
    }
    assert((x % 30 + 1) % 30 == (x + 1) % 30);
    lemma_position_mod(x % 30 + 1, x + 1);
}

/// Stepping `k` times from `m` reaches the palette `k` places further in the cycle.
proof fn lemma_color_steps(m: ColorMode, k: nat)
    ensures
        color_steps(m, k) == at(color_index(m) + k),
    decreases k,
{
    if k == 0 {
        lemma_position_of_index(m);
    } else {
        lemma_color_steps(m, (k - 1) as nat);
        lemma_next_position(color_index(m) + k - 1);
    }
}

/// Every palette's position lies in the cycle.
proof fn lemma_index_range(m: ColorMode)
    ensures
        0 <= color_index(m) < 30,
{
}

/// Thirty steps lead back to the start.
proof fn lemma_cycle_back(m: ColorMode)
    ensures
        color_steps(m, 30) == m,
{
    lemma_color_steps(m, 30);
    lemma_position_mod(color_index(m) + 30, color_index(m));
    lemma_position_of_index(m);
}

/// Fewer than thirty different step counts lead to different palettes.
proof fn lemma_cycle_distinct(m: ColorMode, i: nat, j: nat)
    requires
        i < j < 30,
    ensures
        color_steps(m, i) != color_steps(m, j),
{
    lemma_index_range(m);
    lemma_color_steps(m, i);
    lemma_color_steps(m, j);
    lemma_index_of_position(color_index(m) + i);
    lemma_index_of_position(color_index(m) + j);
}

/// `steps_between(m, p)` steps lead from `m` to `p`.
proof fn lemma_cycle_reaches(m: ColorMode, p: ColorMode)
    ensures
        color_steps(m, steps_between(m, p)) == p,
{
    lemma_index_range(m);
    lemma_index_range(p);
    let i = steps_between(m, p);
    lemma_color_steps(m, i);
    assert((color_index(m) + i) % 30 == color_index(p) % 30);
    lemma_position_mod(color_index(m) + i, color_index(p));
    lemma_position_of_index(p);
}

/// Stepping through the palettes (the `c` key's order) visits all thirty, each once,
/// and comes back to the start after thirty steps.
pub proof fn law_palette_cycle(m: ColorMode)
    ensures
        color_steps(m, 30) == m,
        forall|i: nat, j: nat| i < j < 30 ==> color_steps(m, i) != color_steps(m, j),
        forall|p: ColorMode| color_steps(m, #[trigger] steps_between(m, p)) == p,
{
    lemma_cycle_back(m);
    assert forall|i: nat, j: nat| i < j < 30 implies color_steps(m, i) != color_steps(m, j) by {
        lemma_cycle_distinct(m, i, j);
    }
    assert forall|p: ColorMode| color_steps(m, #[trigger] steps_between(m, p)) == p by {
        lemma_cycle_reaches(m, p);
    }
}

/// The bar styles cycle through all four and come back after four steps.
pub proof fn law_bar_style_cycle(b: BarStyle)
    ensures
        bar_next(bar_next(bar_next(bar_next(b)))) == b,
        b != bar_next(b),
        b != bar_next(bar_next(b)),
        b != bar_next(bar_next(bar_next(b))),
{
}

/// The unit modes cycle through all four and come back after four steps.
pub proof fn law_unit_cycle(u: UnitMode)
    ensures
        unit_next(unit_next(unit_next(unit_next(u)))) == u,
        u != unit_next(u),
        u != unit_next(unit_next(u)),
        u != unit_next(unit_next(unit_next(u))),
{
}

/// Every sort mode's command-line spelling is accepted and parses back to it.
pub proof fn law_sort_flag_roundtrip(m: SortMode)
    ensures
        sort_from(sort_flag(m)) == Some(m),
{
    match m {
        SortMode::Name => {
            reveal_strlit("name");
        },
        SortMode::Pct => {
            reveal_strlit("pct");
            reveal_strlit("name");
            assert("pct"@.len() != "name"@.len());
        },
        SortMode::Size => {
            reveal_strlit("size");
            reveal_strlit("name");
            assert("size"@[0] != "name"@[0]);
            reveal_strlit("pct");
            assert("size"@.len() != "pct"@.len());
        },
    }
}

/// Every bar style's command-line spelling is accepted and parses back to it.
pub proof fn law_bar_flag_roundtrip(b: BarStyle)
    ensures
        bar_from(bar_flag(b)) == Some(b),
{
    match b {
        BarStyle::Gradient => {
            reveal_strlit("gradient");
        },
        BarStyle::Solid => {
            reveal_strlit("solid");
            reveal_strlit("gradient");
            assert("solid"@.len() != "gradient"@.len());
        },
        BarStyle::Thin => {
            reveal_strlit("thin");
            reveal_strlit("gradient");
            assert("thin"@.len() != "gradient"@.len());
            reveal_strlit("solid");
            assert("thin"@.len() != "solid"@.len());
        },
        BarStyle::Ascii => {
            reveal_strlit("ascii");
            reveal_strlit("gradient");
            assert("ascii"@.len() != "gradient"@.len());
            reveal_strlit("solid");
            assert("ascii"@[0] != "solid"@[0]);
            reveal_strlit("thin");
            assert("ascii"@.len() != "thin"@.len());
        },
    }
}

/// Every unit mode's command-line spelling is accepted and parses back to it.
pub proof fn law_unit_flag_roundtrip(u: UnitMode)
    ensures
        unit_from(unit_flag(u)) == Some(u),
{
    match u {
        UnitMode::Human => {
            reveal_strlit("human");
        },
        UnitMode::GiB => {
            reveal_strlit("gib");
            reveal_strlit("human");
            assert("gib"@.len() != "human"@.len());
        },
        UnitMode::MiB => {
            reveal_strlit("mib");
            reveal_strlit("human");
            assert("mib"@.len() != "human"@.len());
            reveal_strlit("gib");
            assert("mib"@[0] != "gib"@[0]);
        },
        UnitMode::Bytes => {
            reveal_strlit("bytes");
            reveal_strlit("human");
            assert("bytes"@[0] != "human"@[0]);
            reveal_strlit("gib");
            assert("bytes"@.len() != "gib"@.len());
            reveal_strlit("mib");
            assert("bytes"@.len() != "mib"@.len());
        },
    }
}

/// The lengths of the palettes' spellings.
proof fn lemma_color_flag_lengths()
    ensures
        "default"@.len() == 7,
        "green"@.len() == 5,
        "blue"@.len() == 4,
        "purple"@.len() == 6,
        "amber"@.len() == 5,
        "cyan"@.len() == 4,
        "red"@.len() == 3,
        "sakura"@.len() == 6,
        "matrix"@.len() == 6,
        "sunset"@.len() == 6,
        "neon-noir"@.len() == 9,
        "chrome-heart"@.len() == 12,
        "blade-runner"@.len() == 12,
        "void-walker"@.len() == 11,
        "toxic-waste"@.len() == 11,
        "cyber-frost"@.len() == 11,
        "plasma-core"@.len() == 11,
        "steel-nerve"@.len() == 11,
        "dark-signal"@.len() == 11,
        "glitch-pop"@.len() == 10,
        "holo-shift"@.len() == 10,
        "night-city"@.len() == 10,
        "deep-net"@.len() == 8,
        "laser-grid"@.len() == 10,
        "quantum-flux"@.len() == 12,
        "bio-hazard"@.len() == 10,
        "darkwave"@.len() == 8,
        "overlock"@.len() == 8,
        "megacorp"@.len() == 8,
        "zaibatsu"@.len() == 8,
{
    reveal_strlit("default");
    reveal_strlit("green");
    reveal_strlit("blue");
    reveal_strlit("purple");
    reveal_strlit("amber");
    reveal_strlit("cyan");
    reveal_strlit("red");
    reveal_strlit("sakura");
    reveal_strlit("matrix");
    reveal_strlit("sunset");
    reveal_strlit("neon-noir");
    reveal_strlit("chrome-heart");
    reveal_strlit("blade-runner");
    reveal_strlit("void-walker");
    reveal_strlit("toxic-waste");
    reveal_strlit("cyber-frost");
    reveal_strlit("plasma-core");
    reveal_strlit("steel-nerve");
    reveal_strlit("dark-signal");
    reveal_strlit("glitch-pop");
    reveal_strlit("holo-shift");
    reveal_strlit("night-city");
    reveal_strlit("deep-net");
    reveal_strlit("laser-grid");
    reveal_strlit("quantum-flux");
    reveal_strlit("bio-hazard");
    reveal_strlit("darkwave");
    reveal_strlit("overlock");
    reveal_strlit("megacorp");
    reveal_strlit("zaibatsu");
}

/// The spellings of the palettes at positions 0 to 9 parse back to them.
proof fn lemma_color_flags_0(m: ColorMode)
    requires
        0 <= color_index(m) < 10,
    ensures
        color_from(color_flag(m)) == Some(m),
{
    lemma_color_flag_lengths();
    match m {
        ColorMode::Amber => {
            reveal_strlit("amber");
            reveal_strlit("green");
            assert("amber"@[0] != "green"@[0]);
        },
        ColorMode::Cyan => {
            reveal_strlit("cyan");
            reveal_strlit("blue");
            assert("cyan"@[0] != "blue"@[0]);
        },
        ColorMode::Sakura => {
            reveal_strlit("sakura");
            reveal_strlit("purple");
            assert("sakura"@[0] != "purple"@[0]);
        },
        ColorMode::Matrix => {
            reveal_strlit("matrix");
            reveal_strlit("purple");
            assert("matrix"@[0] != "purple"@[0]);
            reveal_strlit("matrix");
            reveal_strlit("sakura");
            assert("matrix"@[0] != "sakura"@[0]);
        },
        ColorMode::Sunset => {
            reveal_strlit("sunset");
            reveal_strlit("purple");
            assert("sunset"@[0] != "purple"@[0]);
            reveal_strlit("sunset");
            reveal_strlit("sakura");
            assert("sunset"@[1] != "sakura"@[1]);
            reveal_strlit("sunset");
            reveal_strlit("matrix");
            assert("sunset"@[0] != "matrix"@[0]);
        },
        _ => {},
    }
}

/// The spellings of the palettes at positions 10 to 19 parse back to them.
proof fn lemma_color_flags_10(m: ColorMode)
    requires
        10 <= color_index(m) < 20,
    ensures
        color_from(color_flag(m)) == Some(m),
{
    lemma_color_flag_lengths();
    match m {
        ColorMode::BladeRunner => {
            reveal_strlit("blade-runner");
            reveal_strlit("chrome-heart");
            assert("blade-runner"@[0] != "chrome-heart"@[0]);
        },
        ColorMode::ToxicWaste => {
            reveal_strlit("toxic-waste");
            reveal_strlit("void-walker");
            assert("toxic-waste"@[0] != "void-walker"@[0]);
        },
        ColorMode::CyberFrost => {
            reveal_strlit("cyber-frost");
            reveal_strlit("void-walker");
            assert("cyber-frost"@[0] != "void-walker"@[0]);
            reveal_strlit("cyber-frost");
            reveal_strlit("toxic-waste");
            assert("cyber-frost"@[0] != "toxic-waste"@[0]);
        },
        ColorMode::PlasmaCore => {
            reveal_strlit("plasma-core");
            reveal_strlit("void-walker");
            assert("plasma-core"@[0] != "void-walker"@[0]);
            reveal_strlit("plasma-core");
            reveal_strlit("toxic-waste");
            assert("plasma-core"@[0] != "toxic-waste"@[0]);
            reveal_strlit("plasma-core");
            reveal_strlit("cyber-frost");
            assert("plasma-core"@[0] != "cyber-frost"@[0]);
        },
        ColorMode::SteelNerve => {
            reveal_strlit("steel-nerve");
            reveal_strlit("void-walker");
            assert("steel-nerve"@[0] != "void-walker"@[0]);
            reveal_strlit("steel-nerve");
            reveal_strlit("toxic-waste");
            assert("steel-nerve"@[0] != "toxic-waste"@[0]);
            reveal_strlit("steel-nerve");
            reveal_strlit("cyber-frost");
            assert("steel-nerve"@[0] != "cyber-frost"@[0]);
            reveal_strlit("steel-nerve");
            reveal_strlit("plasma-core");
            assert("steel-nerve"@[0] != "plasma-core"@[0]);
        },
        ColorMode::DarkSignal => {
            reveal_strlit("dark-signal");
            reveal_strlit("void-walker");
            assert("dark-signal"@[0] != "void-walker"@[0]);
            reveal_strlit("dark-signal");
            reveal_strlit("toxic-waste");
            assert("dark-signal"@[0] != "toxic-waste"@[0]);
            reveal_strlit("dark-signal");
            reveal_strlit("cyber-frost");
            assert("dark-signal"@[0] != "cyber-frost"@[0]);
            reveal_strlit("dark-signal");
            reveal_strlit("plasma-core");
            assert("dark-signal"@[0] != "plasma-core"@[0]);
            reveal_strlit("dark-signal");
            reveal_strlit("steel-nerve");
            assert("dark-signal"@[0] != "steel-nerve"@[0]);
        },
        _ => {},
    }
}

/// The spellings of the palettes at positions 20 to 29 parse back to them.
proof fn lemma_color_flags_20(m: ColorMode)
    requires
        20 <= color_index(m) < 30,
    ensures
        color_from(color_flag(m)) == Some(m),
{
    lemma_color_flag_lengths();
    match m {
        ColorMode::HoloShift => {
            reveal_strlit("holo-shift");
            reveal_strlit("glitch-pop");
            assert("holo-shift"@[0] != "glitch-pop"@[0]);
        },
        ColorMode::NightCity => {
            reveal_strlit("night-city");
            reveal_strlit("glitch-pop");
            assert("night-city"@[0] != "glitch-pop"@[0]);
            reveal_strlit("night-city");
            reveal_strlit("holo-shift");
            assert("night-city"@[0] != "holo-shift"@[0]);
        },
        ColorMode::LaserGrid => {
            reveal_strlit("laser-grid");
            reveal_strlit("glitch-pop");
            assert("laser-grid"@[0] != "glitch-pop"@[0]);
            reveal_strlit("laser-grid");
            reveal_strlit("holo-shift");
            assert("laser-grid"@[0] != "holo-shift"@[0]);
            reveal_strlit("laser-grid");
            reveal_strlit("night-city");
            assert("laser-grid"@[0] != "night-city"@[0]);
        },
        ColorMode::QuantumFlux => {
            reveal_strlit("quantum-flux");
            reveal_strlit("chrome-heart");
            assert("quantum-flux"@[0] != "chrome-heart"@[0]);
            reveal_strlit("quantum-flux");
            reveal_strlit("blade-runner");
            assert("quantum-flux"@[0] != "blade-runner"@[0]);
        },
        ColorMode::BioHazard => {
            reveal_strlit("bio-hazard");
            reveal_strlit("glitch-pop");
            assert("bio-hazard"@[0] != "glitch-pop"@[0]);
            reveal_strlit("bio-hazard");
            reveal_strlit("holo-shift");
            assert("bio-hazard"@[0] != "holo-shift"@[0]);
            reveal_strlit("bio-hazard");
            reveal_strlit("night-city");
            assert("bio-hazard"@[0] != "night-city"@[0]);
            reveal_strlit("bio-hazard");
            reveal_strlit("laser-grid");
            assert("bio-hazard"@[0] != "laser-grid"@[0]);
        },
        ColorMode::Darkwave => {
            reveal_strlit("darkwave");
            reveal_strlit("deep-net");
            assert("darkwave"@[1] != "deep-net"@[1]);
        },
        ColorMode::Overlock => {
            reveal_strlit("overlock");
            reveal_strlit("deep-net");
            assert("overlock"@[0] != "deep-net"@[0]);
            reveal_strlit("overlock");
            reveal_strlit("darkwave");
            assert("overlock"@[0] != "darkwave"@[0]);
        },
        ColorMode::Megacorp => {
            reveal_strlit("megacorp");
            reveal_strlit("deep-net");
            assert("megacorp"@[0] != "deep-net"@[0]);
            reveal_strlit("megacorp");
            reveal_strlit("darkwave");
            assert("megacorp"@[0] != "darkwave"@[0]);
            reveal_strlit("megacorp");
            reveal_strlit("overlock");
            assert("megacorp"@[0] != "overlock"@[0]);
        },
        ColorMode::Zaibatsu => {
            reveal_strlit("zaibatsu");
            reveal_strlit("deep-net");
            assert("zaibatsu"@[0] != "deep-net"@[0]);
            reveal_strlit("zaibatsu");
            reveal_strlit("darkwave");
            assert("zaibatsu"@[0] != "darkwave"@[0]);
            reveal_strlit("zaibatsu");
            reveal_strlit("overlock");
            assert("zaibatsu"@[0] != "overlock"@[0]);
            reveal_strlit("zaibatsu");
            reveal_strlit("megacorp");
            assert("zaibatsu"@[0] != "megacorp"@[0]);
        },
        _ => {},
    }
}

/// Every palette's command-line spelling is accepted by `--color` and parses back to it.
pub proof fn law_color_flag_roundtrip(m: ColorMode)
    ensures
        color_from(color_flag(m)) == Some(m),
{
    if color_index(m) < 10 {
        lemma_color_flags_0(m);
    } else if color_index(m) < 20 {
        lemma_color_flags_10(m);
    } else {
        lemma_color_flags_20(m);
    }
}

// ─── The command line ───────────────────────────────────────────────────────

/// Laying the same command line over the preferences a second time changes nothing:
/// the overrides are idempotent.
pub proof fn law_cli_override_idempotent(c: CliModel, p: Prefs)
    ensures
        overridden(c, overridden(c, p)) == overridden(c, p),
{
}

// ─── The disk listing ───────────────────────────────────────────────────────

/// Bookmarked mounts are listed before all others.
pub proof fn law_listing_bookmarks_first(ds: Seq<DiskEntry>, prefs: Prefs, out: Seq<DiskEntry>)
    requires
        is_listing_of(ds, prefs, out),
    ensures
        forall|a: int, b: int|
            0 <= a < b < out.len() && is_bookmarked(prefs.bookmarks@, #[trigger] out[b].mount@)
                ==> is_bookmarked(prefs.bookmarks@, #[trigger] out[a].mount@),
{
    let p = choose|p: Seq<usize>|
        is_ranked_order(disk_groups(prefs.bookmarks@, ds), disk_keys(prefs.sort_mode, ds), prefs.sort_rev, p)
            && out == p.map_values(|i: usize| ds[i as int]);
    assert forall|a: int, b: int|
        0 <= a < b < out.len() && is_bookmarked(prefs.bookmarks@, #[trigger] out[b].mount@)
            implies is_bookmarked(prefs.bookmarks@, #[trigger] out[a].mount@) by {
        assert(ranked_before(
            disk_groups(prefs.bookmarks@, ds),
            disk_keys(prefs.sort_mode, ds),
            prefs.sort_rev,
            p[a] as int,
            p[b] as int,
        ));
    }
}

/// Within the bookmarked mounts and within the others, the listing runs by the sort
/// key: ascending, or descending when the order is reversed.
pub proof fn law_listing_sorted(ds: Seq<DiskEntry>, prefs: Prefs, out: Seq<DiskEntry>)
    requires
        is_listing_of(ds, prefs, out),
    ensures
        forall|a: int, b: int|
            0 <= a < b < out.len() && is_bookmarked(prefs.bookmarks@, #[trigger] out[a].mount@)
                == is_bookmarked(prefs.bookmarks@, #[trigger] out[b].mount@) ==> if prefs.sort_rev {
                !lex_lt(disk_keys(prefs.sort_mode, out)[a], disk_keys(prefs.sort_mode, out)[b])
            } else {
                !lex_lt(disk_keys(prefs.sort_mode, out)[b], disk_keys(prefs.sort_mode, out)[a])
            },
{
    let g = disk_groups(prefs.bookmarks@, ds);
    let k = disk_keys(prefs.sort_mode, ds);
    let p = choose|p: Seq<usize>|
        is_ranked_order(g, k, prefs.sort_rev, p) && out == p.map_values(|i: usize| ds[i as int]);
    assert forall|a: int, b: int|
        0 <= a < b < out.len() && is_bookmarked(prefs.bookmarks@, #[trigger] out[a].mount@)
            == is_bookmarked(prefs.bookmarks@, #[trigger] out[b].mount@) implies if prefs.sort_rev {
            !lex_lt(disk_keys(prefs.sort_mode, out)[a], disk_keys(prefs.sort_mode, out)[b])
        } else {
            !lex_lt(disk_keys(prefs.sort_mode, out)[b], disk_keys(prefs.sort_mode, out)[a])
        } by {
        let i = p[a] as int;
        let j = p[b] as int;
        assert(ranked_before(g, k, prefs.sort_rev, i, j));
        assert(disk_keys(prefs.sort_mode, out)[a] == k[i]);
        assert(disk_keys(prefs.sort_mode, out)[b] == k[j]);
        if prefs.sort_rev {
            if lex_lt(k[i], k[j]) {
                crate::order::lemma_lex_asymmetric(k[i], k[j]);
            }
        } else {
            if lex_lt(k[j], k[i]) {
                crate::order::lemma_lex_asymmetric(k[j], k[i]);
            }
        }
    }
}

/// Whether the rearrangement `p` takes position `i`.
pub open spec fn takes(p: Seq<usize>, i: int) -> bool {
    exists|k: int| 0 <= k < p.len() && p[k] == i
}

/// The listing holds every listed mount exactly once: it is the mounts rearranged, by
/// a rearrangement that takes each position once.
pub proof fn law_listing_complete(ds: Seq<DiskEntry>, prefs: Prefs, out: Seq<DiskEntry>)
    requires
        is_listing_of(ds, prefs, out),
    ensures
        out.len() == ds.len(),
        exists|p: Seq<usize>|
            p.len() == ds.len() && (forall|k: int| 0 <= k < p.len() ==> out[k] == ds[#[trigger] p[k] as int])
                && (forall|a: int, b: int| 0 <= a < b < p.len() ==> #[trigger] p[a] != #[trigger] p[b])
                && (forall|i: int| 0 <= i < ds.len() ==> #[trigger] takes(p, i)),
{
    let g = disk_groups(prefs.bookmarks@, ds);
    let kk = disk_keys(prefs.sort_mode, ds);
    let p = choose|p: Seq<usize>|
        is_ranked_order(g, kk, prefs.sort_rev, p) && out == p.map_values(|i: usize| ds[i as int]);
    assert forall|a: int, b: int| 0 <= a < b < p.len() implies #[trigger] p[a] != #[trigger] p[b] by {
        lemma_ranked_irreflexive(g, kk, prefs.sort_rev, p[a] as int);
    }
    assert forall|i: int| 0 <= i < ds.len() implies #[trigger] takes(p, i) by {
        lemma_positions_onto(p, ds.len());
    }
    assert(forall|k: int| 0 <= k < p.len() ==> out[k] == ds[#[trigger] p[k] as int]);
}

/// A sequence of `n` distinct positions below `n` takes every position below `n`.
proof fn lemma_positions_onto(p: Seq<usize>, n: nat)
    requires
        p.len() == n,
        forall|k: int| 0 <= k < p.len() ==> p[k] < n,
        forall|a: int, b: int| 0 <= a < b < p.len() ==> #[trigger] p[a] != #[trigger] p[b],
    ensures
        forall|i: int| 0 <= i < n ==> #[trigger] takes(p, i),
{
    let q = p.map_values(|x: usize| x as int);
    assert(q.no_duplicates()) by {
        assert forall|a: int, b: int| 0 <= a < q.len() && 0 <= b < q.len() && a != b implies q[a] != q[b] by {
            if a < b {
                assert(p[a] != p[b]);
            } else {
                assert(p[b] != p[a]);
            }
        }
    }
    q.unique_seq_to_set();
    vstd::set_lib::lemma_int_range(0, n as int);
    let r = vstd::set_lib::set_int_range(0, n as int);
    assert(q.to_set().subset_of(r));
    vstd::set_lib::lemma_len_subset(q.to_set(), r);
    vstd::set_lib::lemma_subset_equality(q.to_set(), r);
    assert forall|i: int| 0 <= i < n implies #[trigger] takes(p, i) by {
        assert(r.contains(i));
        assert(q.to_set().contains(i));
        let k = choose|k: int| 0 <= k < q.len() && q[k] == i;
        assert(p[k] == i);
        assert(takes(p, i));
    }
}

// ─── Keys ───────────────────────────────────────────────────────────────────

/// Whether the disk view takes the keys: no filter line, help screen, theme chooser,
/// palette editor or drill-down is up.
pub open spec fn disk_view(a: App) -> bool {
    &&& !a.filter.active
    &&& !a.show_help
    &&& !a.theme_chooser.active
    &&& !a.theme_edit.active
    &&& a.drill.mode == ViewMode::Disks
}

/// After any key the listing is the one derived from the mounts, the preferences and
/// the filter as they now stand, whenever the mounts can be sorted as asked.
pub proof fn law_listing_current_after_key(a: App, key: Key, ctrl: bool, now: u64, b: App, e: crate::keys::KeyEffect)
    requires
        key_step(a, key, ctrl, now, b, e),
        sortable(b.disks@, b.prefs.sort_mode),
    ensures
        listing_ok(b),
{
}

/// After any mouse event the listing is the one derived from the mounts, the
/// preferences and the filter as they now stand, whenever the mounts can be sorted as
/// asked.
pub proof fn law_listing_current_after_mouse(
    a: App,
    kind: crate::mouse::MouseKind,
    x: u16,
    y: u16,
    w: u16,
    h: u16,
    now: u64,
    b: App,
    e: crate::keys::KeyEffect,
)
    requires
        crate::mouse::mouse_step(a, kind, x, y, w, h, now, b, e),
        sortable(b.disks@, b.prefs.sort_mode),
    ensures
        listing_ok(b),
{
}

/// Pressing `/` and then `Esc` leaves everything as it was but the filter line's
/// buffer and the listing: the filter text is the one from before, and the listing is
/// the one derived from it.
pub proof fn law_filter_cancel_restores(
    a: App,
    n1: u64,
    b: App,
    e1: crate::keys::KeyEffect,
    n2: u64,
    c: App,
    e2: crate::keys::KeyEffect,
)
    requires
        disk_view(a),
        key_step(a, Key::Char('/'), false, n1, b, e1),
        key_step(b, Key::Esc, false, n2, c, e2),
    ensures
        c.filter.text == a.filter.text,
        !c.filter.active,
        c == (App { filter: c.filter, sorted_cache: c.sorted_cache, ..a }),
        sortable(a.disks@, a.prefs.sort_mode) ==> listing_ok(c),
{
}

/// While the filter line is up, every key but `Enter` and `Esc` keeps it up, keeps the
/// text it was opened on, so that `Esc` can restore it, and changes nothing but the
/// line and the listing derived from it.
pub proof fn law_filter_typing_keeps_origin(
    a: App,
    key: Key,
    ctrl: bool,
    n: u64,
    b: App,
    e: crate::keys::KeyEffect,
)
    requires
        a.filter.active,
        key != Key::Enter,
        key != Key::Esc,
        key_step(a, key, ctrl, n, b, e),
    ensures
        b.filter.active,
        b.filter.prev == a.filter.prev,
        b == (App { filter: b.filter, sorted_cache: b.sorted_cache, ..a }),
{
}

/// Opening the theme chooser and closing it with `Esc` leaves the preferences as they
/// were.
pub proof fn law_chooser_cancel_restores(
    a: App,
    n1: u64,
    b: App,
    e1: crate::keys::KeyEffect,
    n2: u64,
    c: App,
    e2: crate::keys::KeyEffect,
)
    requires
        disk_view(a),
        key_step(a, Key::Char('c'), false, n1, b, e1),
        key_step(b, Key::Esc, false, n2, c, e2),
    ensures
        c.prefs == a.prefs,
        !c.theme_chooser.active,
{
    let mb = App { sorted_cache: a.sorted_cache, ..b };
    let mc = App { sorted_cache: b.sorted_cache, ..c };
    assert(crate::keys::chooser_opened(a, mb));
    assert(b.theme_chooser.active && !b.filter.active && !b.show_help);
    assert(crate::keys::chooser_step(b, Key::Esc, n2, mc, e2));
    assert(mc.prefs == a.prefs && !mc.theme_chooser.active) by {
        reveal(crate::keys::chooser_step);
    }
}

/// While the chooser is up, every key but `Enter`, `Esc` and `q` keeps it up, keeps the
/// theme in force when it opened, and changes no preference but the palette.
pub proof fn law_chooser_preview_keeps_origin(
    a: App,
    key: Key,
    n: u64,
    b: App,
    e: crate::keys::KeyEffect,
)
    requires
        !a.filter.active,
        !a.show_help,
        a.theme_chooser.active,
        key != Key::Enter,
        key != Key::Esc,
        key != Key::Char('q'),
        key_step(a, key, false, n, b, e),
    ensures
        b.theme_chooser.active,
        !b.filter.active,
        !b.show_help,
        b.theme_chooser.orig_color_mode == a.theme_chooser.orig_color_mode,
        b.theme_chooser.orig_active_theme == a.theme_chooser.orig_active_theme,
        b.prefs == (Prefs { color_mode: b.prefs.color_mode, active_theme: b.prefs.active_theme, ..a.prefs }),
{
    let b = App { sorted_cache: a.sorted_cache, ..b };
    reveal(crate::keys::chooser_step);
    reveal(crate::keys::chooser_moved);
    if crate::keys::is_chooser_nav(key) {
        let s = crate::keys::chooser_target(a, key);
        let t = choose|t: Seq<(String, String)>|
            crate::app::is_theme_list(a.prefs.custom_themes@, t) && if s < t.len() {
                crate::app::choose_theme(a.prefs, t[s].0@, b.prefs)
            } else {
                b.prefs == a.prefs
            };
    }
}

/// Whether the states `s` are a run of key presses: each state follows from the one
/// before it by the key, modifier, time and effect at the same position of `keys`.
pub open spec fn key_run(s: Seq<App>, keys: Seq<(Key, bool, u64, crate::keys::KeyEffect)>) -> bool {
    &&& s.len() == keys.len() + 1
    &&& forall|i: int|
        0 <= i < keys.len() ==> key_step(s[i], #[trigger] keys[i].0, keys[i].1, keys[i].2, s[i + 1], keys[i].3)
}

/// Along a run that opened the filter line with `/` and typed keys other than `Enter`
/// and `Esc`, the line stays up, remembers the filter it was opened on, and nothing
/// but the line and the listing has changed.
proof fn lemma_filter_run(s: Seq<App>, keys: Seq<(Key, bool, u64, crate::keys::KeyEffect)>, i: int)
    requires
        key_run(s, keys),
        disk_view(s[0]),
        keys[0].0 == Key::Char('/'),
        !keys[0].1,
        1 <= i < keys.len(),
        forall|j: int| 0 < j < keys.len() - 1 ==> #[trigger] keys[j].0 != Key::Enter && keys[j].0 != Key::Esc,
    ensures
        s[i].filter.active,
        s[i].filter.prev == s[0].filter.text,
        s[i] == (App { filter: s[i].filter, sorted_cache: s[i].sorted_cache, ..s[0] }),
    decreases i,
{
    if i == 1 {
        assert(key_step(s[0], keys[0].0, keys[0].1, keys[0].2, s[1], keys[0].3));
    } else {
        lemma_filter_run(s, keys, i - 1);
        let j = i - 1;
        assert(keys[j].0 != Key::Enter && keys[j].0 != Key::Esc);
        assert(key_step(s[j], keys[j].0, keys[j].1, keys[j].2, s[i], keys[j].3));
        law_filter_typing_keeps_origin(s[j], keys[j].0, keys[j].1, keys[j].2, s[i], keys[j].3);
    }
}

/// Opening the filter line with `/`, typing any number of keys other than `Enter` and
/// `Esc`, then pressing `Esc` brings back the filter in force before `/`; nothing else
/// has changed but the line's buffer and the listing, which is the one derived from
/// the restored filter.
pub proof fn law_filter_run_cancel_restores(s: Seq<App>, keys: Seq<(Key, bool, u64, crate::keys::KeyEffect)>)
    requires
        key_run(s, keys),
        keys.len() >= 2,
        disk_view(s[0]),
        keys[0].0 == Key::Char('/'),
        !keys[0].1,
        forall|j: int| 0 < j < keys.len() - 1 ==> #[trigger] keys[j].0 != Key::Enter && keys[j].0 != Key::Esc,
        keys.last().0 == Key::Esc,
    ensures
        s.last().filter.text == s[0].filter.text,
        !s.last().filter.active,
        s.last() == (App { filter: s.last().filter, sorted_cache: s.last().sorted_cache, ..s[0] }),
        sortable(s[0].disks@, s[0].prefs.sort_mode) ==> listing_ok(s.last()),
{
    let n = keys.len() - 1;
    lemma_filter_run(s, keys, n);
    assert(key_step(s[n], keys[n].0, keys[n].1, keys[n].2, s[n + 1], keys[n].3));
    assert(s.last() == s[n + 1]);
}

/// Along a run that opened the theme chooser with `c` and pressed keys other than
/// `Enter`, `Esc` and `q`, the chooser stays up, remembers the theme in force when it
/// opened, and no preference but the palette has changed.
proof fn lemma_chooser_run(s: Seq<App>, keys: Seq<(Key, bool, u64, crate::keys::KeyEffect)>, i: int)
    requires
        key_run(s, keys),
        disk_view(s[0]),
        keys[0].0 == Key::Char('c'),
        !keys[0].1,
        1 <= i < keys.len(),
        forall|j: int|
            0 < j < keys.len() - 1 ==> #[trigger] keys[j].0 != Key::Enter && keys[j].0 != Key::Esc && keys[j].0
                != Key::Char('q'),
    ensures
        s[i].theme_chooser.active,
        !s[i].filter.active,
        !s[i].show_help,
        s[i].theme_chooser.orig_color_mode == s[0].prefs.color_mode,
        s[i].theme_chooser.orig_active_theme == s[0].prefs.active_theme,
        s[i].prefs == (Prefs { color_mode: s[i].prefs.color_mode, active_theme: s[i].prefs.active_theme, ..s[0].prefs }),
    decreases i,
{
    if i == 1 {
        assert(key_step(s[0], keys[0].0, keys[0].1, keys[0].2, s[1], keys[0].3));
        assert(crate::keys::chooser_opened(s[0], App { sorted_cache: s[0].sorted_cache, ..s[1] }));
    } else {
        lemma_chooser_run(s, keys, i - 1);
        let j = i - 1;
        assert(keys[j].0 != Key::Enter && keys[j].0 != Key::Esc && keys[j].0 != Key::Char('q'));
        assert(key_step(s[j], keys[j].0, keys[j].1, keys[j].2, s[i], keys[j].3));
        assert(key_step(s[j], keys[j].0, false, keys[j].2, s[i], keys[j].3));
        law_chooser_preview_keeps_origin(s[j], keys[j].0, keys[j].2, s[i], keys[j].3);
    }
}

/// Opening the theme chooser with `c`, browsing with any number of keys other than
/// `Enter`, `Esc` and `q`, then closing it with `Esc` or `q` leaves the preferences as
/// they were before `c`.
pub proof fn law_chooser_run_cancel_restores(s: Seq<App>, keys: Seq<(Key, bool, u64, crate::keys::KeyEffect)>)
    requires
        key_run(s, keys),
        keys.len() >= 2,
        disk_view(s[0]),
        keys[0].0 == Key::Char('c'),
        !keys[0].1,
        forall|j: int|
            0 < j < keys.len() - 1 ==> #[trigger] keys[j].0 != Key::Enter && keys[j].0 != Key::Esc && keys[j].0
                != Key::Char('q'),
        keys.last().0 == Key::Esc || keys.last().0 == Key::Char('q'),
    ensures
        s.last().prefs == s[0].prefs,
        !s.last().theme_chooser.active,
{
    let n = keys.len() - 1;
    lemma_chooser_run(s, keys, n);
    assert(key_step(s[n], keys[n].0, keys[n].1, keys[n].2, s[n + 1], keys[n].3));
    assert(s.last() == s[n + 1]);
    reveal(crate::keys::chooser_step);
}

/// When the highlighted mount is bookmarked at most once, pressing `B` twice on it (the
/// recomputed listing still showing it on the highlighted row) leaves the same mounts
/// bookmarked; when it was not bookmarked, the bookmarks are exactly as before.
pub proof fn law_bookmark_toggle_twice(
    a: App,
    n1: u64,
    b: App,
    e1: crate::keys::KeyEffect,
    n2: u64,
    c: App,
    e2: crate::keys::KeyEffect,
)
    requires
        disk_view(a),
        highlighted(a) is Some,
        forall|i: int, j: int|
            0 <= i < a.prefs.bookmarks@.len() && 0 <= j < a.prefs.bookmarks@.len()
                && #[trigger] a.prefs.bookmarks@[i]@ == highlighted(a)->0.mount@
                && #[trigger] a.prefs.bookmarks@[j]@ == highlighted(a)->0.mount@ ==> i == j,
        key_step(a, Key::Char('B'), false, n1, b, e1),
        highlighted(b) == highlighted(a),
        key_step(b, Key::Char('B'), false, n2, c, e2),
    ensures
        forall|x: Seq<char>|
            is_bookmarked(#[trigger] c.prefs.bookmarks@, x) == is_bookmarked(a.prefs.bookmarks@, x),
        !is_bookmarked(a.prefs.bookmarks@, highlighted(a)->0.mount@) ==> c.prefs.bookmarks@
            == a.prefs.bookmarks@,
{
    let m = highlighted(a)->0.mount;
    let bms = a.prefs.bookmarks@;
    if exists|j: int| first_bookmark(bms, m@, j) {
        let j = choose|j: int| first_bookmark(bms, m@, j);
        let bb = b.prefs.bookmarks@;
        assert(bb == bms.remove(j));
        assert forall|k: int| 0 <= k < bb.len() implies (#[trigger] bb[k])@ != m@ by {
            if k < j {
                assert(bb[k] == bms[k]);
            } else {
                assert(bb[k] == bms[k + 1]);
            }
        }
        assert(!exists|k: int| first_bookmark(bb, m@, k));
        assert(c.prefs.bookmarks@ == bb.push(m));
        assert forall|x: Seq<char>| is_bookmarked(#[trigger] c.prefs.bookmarks@, x) == is_bookmarked(bms, x) by {
            let cb = c.prefs.bookmarks@;
            if is_bookmarked(bms, x) {
                let i = choose|i: int| 0 <= i < bms.len() && #[trigger] bms[i]@ == x;
                if i < j {
                    assert(cb[i] == bms[i]);
                } else if i == j {
                    assert(cb[cb.len() - 1] == m);
                } else {
                    assert(cb[i - 1] == bms[i]);
                }
            }
            if is_bookmarked(cb, x) {
                let i = choose|i: int| 0 <= i < cb.len() && #[trigger] cb[i]@ == x;
                if i == cb.len() - 1 {
                    assert(bms[j]@ == x);
                } else if i < j {
                    assert(bms[i]@ == x);
                } else {
                    assert(bms[i + 1]@ == x);
                }
            }
        }
    } else {
        assert forall|k: int| 0 <= k < bms.len() implies (#[trigger] bms[k])@ != m@ by {
            if bms[k]@ == m@ {
                lemma_first_occurrence(bms, m@, k);
            }
        }
        let bb = b.prefs.bookmarks@;
        assert(bb == bms.push(m));
        assert(first_bookmark(bb, m@, bms.len() as int));
        let j = choose|j: int| first_bookmark(bb, m@, j) && c.prefs.bookmarks@ == bb.remove(j);
        assert(j == bms.len());
        assert(c.prefs.bookmarks@ =~= bms);
    }
}

/// When some bookmark names `m`, a first one does.
proof fn lemma_first_occurrence(bms: Seq<String>, m: Seq<char>, k: int)
    requires
        0 <= k < bms.len(),
        bms[k]@ == m,
    ensures
        exists|j: int| first_bookmark(bms, m, j),
    decreases k,
{
    if forall|i: int| 0 <= i < k ==> (#[trigger] bms[i])@ != m {
        assert(first_bookmark(bms, m, k));
    } else {
        let i = choose|i: int| 0 <= i < k && (#[trigger] bms[i])@ == m;
        lemma_first_occurrence(bms, m, i);
    }
}

/// In the drill-down view, entering a directory and then going up (`Backspace`) comes
/// back to the directory one started from, and asks for it to be scanned again.
pub proof fn law_drill_enter_then_up(
    a: App,
    n1: u64,
    b: App,
    e1: crate::keys::KeyEffect,
    n2: u64,
    c: App,
    e2: crate::keys::KeyEffect,
)
    requires
        !a.filter.active,
        !a.show_help,
        !a.theme_chooser.active,
        !a.theme_edit.active,
        a.drill.mode == ViewMode::DrillDown,
        a.drill.path@.len() > 0,
        !a.drill.scanning,
        (a.drill.selected as int) < a.drill.entries@.len(),
        a.drill.entries@[a.drill.selected as int].is_dir,
        key_step(a, Key::Enter, false, n1, b, e1),
        key_step(b, Key::Backspace, false, n2, c, e2),
    ensures
        c.drill.path@ == a.drill.path@,
        c.drill.mode == ViewMode::DrillDown,
        e2 matches crate::keys::KeyEffect::Scan(p) && p@ == a.drill.path@.last()@,
{
    assert(b.drill.path@ == a.drill.path@.push(a.drill.entries@[a.drill.selected as int].path));
    assert(b.drill.path@.drop_last() =~= a.drill.path@);
}

// ─── The view ───────────────────────────────────────────────────────────────

/// When the mouse is over a disk row, the hovered disk is the one on that row.
pub proof fn law_hover_row_agrees(prefs: Prefs, pos: Option<(u16, u16)>, term_h: int, count: int, i: usize)
    requires
        zone_at(prefs, pos, term_h, count) == HoverZone::DiskRow(i),
    ensures
        disk_row_at(prefs, pos, count) == Some(i),
{
}

/// After scrolling to a selection in a window of at least one row, the selection is
/// in the window.
pub proof fn law_scrolled_into_view(sel: int, offset: int, rows: int)
    requires
        0 <= sel,
        rows > 0,
    ensures
        scrolled_to(sel, offset, rows) <= sel < scrolled_to(sel, offset, rows) + rows,
{
}

/// Storing a custom theme and looking it up again finds the stored colors; every
/// other name finds what it found before.
pub proof fn law_theme_read_after_write(
    before: Seq<(String, ThemeColors)>,
    after: Seq<(String, ThemeColors)>,
    name: Seq<char>,
    colors: ThemeColors,
)
    requires
        stores_theme(before, after, name, colors),
    ensures
        find_theme(after, name) == Some(colors),
        forall|other: Seq<char>| other != name ==> #[trigger] find_theme(after, other) == find_theme(before, other),
{
    reveal(stores_theme);
}

// ─── What the editors and the drags store ───────────────────────────────────

/// Saving a named palette from the editor makes it the palette in force, slot by slot:
/// the editor's six slots become blue, green, purple, light purple, royal and dark
/// purple, in that order.
pub proof fn law_saved_palette_in_force(a: App, ctrl: bool, now: u64, b: App, e: crate::keys::KeyEffect)
    requires
        !a.filter.active,
        !a.show_help,
        !a.theme_chooser.active,
        a.theme_edit.active,
        a.theme_edit.naming,
        crate::keys::trim(a.theme_edit.name@).len() > 0,
        key_step(a, Key::Enter, ctrl, now, b, e),
    ensures
        ({
            let p = crate::palette::prefs_palette(b.prefs);
            seq![p.0, p.1, p.2, p.3, p.4, p.5] == a.theme_edit.colors@
        }),
{
    let m = App { sorted_cache: a.sorted_cache, ..b };
    let nm = crate::keys::trim(a.theme_edit.name@);
    assert(crate::keys::naming_entered(a, now, m, e));
    reveal(stores_theme);
    assert(find_theme(m.prefs.custom_themes@, nm) == Some(crate::keys::edited_colors(a.theme_edit)));
    assert(a.theme_edit.colors@.len() == 6);
    let p = crate::palette::prefs_palette(b.prefs);
    assert(seq![p.0, p.1, p.2, p.3, p.4, p.5] =~= a.theme_edit.colors@);
}

/// Opening the palette editor seeds its slots with the palette in force, in order, so
/// that saving it unchanged keeps that palette.
pub proof fn law_editor_opens_on_palette(a: App, now: u64, b: App, e: crate::keys::KeyEffect)
    requires
        disk_view(a),
        key_step(a, Key::Char('C'), false, now, b, e),
    ensures
        b.theme_edit.active,
        ({
            let p = crate::palette::prefs_palette(a.prefs);
            b.theme_edit.colors@ == seq![p.0, p.1, p.2, p.3, p.4, p.5]
        }),
{
}

/// Dragging the percentage separator to column `x` leaves it at `x`: the percentage
/// column then reaches from the start of the right-hand column it was dragged in to
/// `x`, whenever that width lies within the allowed `4 ..= right_w - 6`.
pub proof fn law_pct_drag_follows_mouse(
    a: App,
    x: u16,
    y: u16,
    w: u16,
    h: u16,
    now: u64,
    b: App,
    e: crate::keys::KeyEffect,
)
    requires
        !a.theme_chooser.active,
        a.drag == Some(crate::types::DragTarget::PctSep),
        crate::mouse::mouse_step(a, crate::mouse::MouseKind::LeftDrag, x, y, w, h, now, b, e),
        4 <= x - crate::mouse::layout_of(a, w as int).right_start <= crate::mouse::layout_of(a, w as int).right_w
            - 6,
    ensures
        crate::mouse::layout_of(a, w as int).right_start + b.prefs.col_pct_w == x,
        a.prefs.col_bar_end_w > 0 ==> crate::mouse::layout_of(b, w as int).pct_sep_x == x,
{
}

/// Dragging the mount column's separator to column `x` leaves it at `x` in the layout
/// that follows, whenever the mount column it makes lies within the allowed
/// `8 ..= inner_w - 20`.
pub proof fn law_mount_drag_follows_mouse(
    a: App,
    x: u16,
    y: u16,
    w: u16,
    h: u16,
    now: u64,
    b: App,
    e: crate::keys::KeyEffect,
)
    requires
        !a.theme_chooser.active,
        a.drag == Some(crate::types::DragTarget::MountSep),
        crate::mouse::mouse_step(a, crate::mouse::MouseKind::LeftDrag, x, y, w, h, now, b, e),
        8 <= x - crate::mouse::layout_of(a, w as int).margin - 3 <= crate::mouse::layout_of(a, w as int).inner_w
            - 20,
    ensures
        crate::mouse::layout_of(b, w as int).mount_sep_x == x,
{
}

/// Dragging the separator at the end of the bars to column `x` leaves it at `x` in the
/// layout that follows, whenever the right-hand column it makes lies within the allowed
/// `5 ..= inner_w / 2`.
pub proof fn law_bar_end_drag_follows_mouse(
    a: App,
    x: u16,
    y: u16,
    w: u16,
    h: u16,
    now: u64,
    b: App,
    e: crate::keys::KeyEffect,
)
    requires
        !a.theme_chooser.active,
        a.drag == Some(crate::types::DragTarget::BarEndSep),
        crate::mouse::mouse_step(a, crate::mouse::MouseKind::LeftDrag, x, y, w, h, now, b, e),
        5 <= w - crate::mouse::layout_of(a, w as int).margin - x - 1 <= crate::mouse::layout_of(a, w as int).inner_w
            / 2,
    ensures
        crate::mouse::layout_of(b, w as int).bar_end_x == x,
{
}

// ─── What the tooltips and exports say ──────────────────────────────────────

/// The characters of `s` with ASCII capitals made small.
pub open spec fn ascii_lowered(s: Seq<char>) -> Seq<char> {
    s.map_values(|c: char| crate::text::ascii_lower(c))
}

/// Each sort mode's tooltip name, read in small letters, is its `--sort` spelling, so
/// different modes show different names.
pub proof fn law_sort_name_is_flag(m: SortMode)
    ensures
        ascii_lowered(crate::tooltips::sort_name(m)) == sort_flag(m),
{
    reveal_strlit("Name");
    reveal_strlit("Pct");
    reveal_strlit("Size");
    reveal_strlit("name");
    reveal_strlit("pct");
    reveal_strlit("size");
    assert(ascii_lowered(crate::tooltips::sort_name(m)) =~= sort_flag(m));
}

/// Each bar style's tooltip name, read in small letters, is its `--bar-style` spelling.
pub proof fn law_bar_name_is_flag(b: BarStyle)
    ensures
        ascii_lowered(crate::tooltips::bar_name(b)) == bar_flag(b),
{
    reveal_strlit("Gradient");
    reveal_strlit("Solid");
    reveal_strlit("Thin");
    reveal_strlit("Ascii");
    reveal_strlit("gradient");
    reveal_strlit("solid");
    reveal_strlit("thin");
    reveal_strlit("ascii");
    assert(ascii_lowered(crate::tooltips::bar_name(b)) =~= bar_flag(b));
}

/// Each unit mode's footer name, read in small letters, is its `--units` spelling.
pub proof fn law_unit_name_is_flag(u: UnitMode)
    ensures
        ascii_lowered(crate::tooltips::unit_name(u)) == unit_flag(u),
{
    reveal_strlit("human");
    reveal_strlit("GiB");
    reveal_strlit("MiB");
    reveal_strlit("bytes");
    reveal_strlit("gib");
    reveal_strlit("mib");
    assert(ascii_lowered(crate::tooltips::unit_name(u)) =~= unit_flag(u));
}

/// The tooltip of the footer's sort segment opens with the sort mode in force: its
/// first line is `▶ Sort Mode`, and its value, read in small letters, is the mode's
/// `--sort` spelling.
pub proof fn law_sort_tip_names_mode(seg: Seq<char>, app: App, host: crate::tooltips::HostFacts)
    requires
        crate::text::starts_with(crate::text::lowercase(seg), "sort:"@),
        !crate::text::has_substring(crate::text::lowercase(seg), "cyberdeck"@),
        !crate::text::has_substring(crate::text::lowercase(seg), "zpwr"@),
    ensures
        crate::tooltips::footer_tooltip(seg, app, host).len() > 0,
        crate::tooltips::footer_tooltip(seg, app, host)[0].0 == "\u{25B6} Sort Mode"@,
        ascii_lowered(crate::tooltips::footer_tooltip(seg, app, host)[0].1) == sort_flag(app.prefs.sort_mode),
{
    let low = crate::text::lowercase(seg);
    reveal_strlit("sort:");
    reveal_strlit("vol:");
    assert(low.len() >= 5 && low.subrange(0, 5) == "sort:"@);
    assert(low.subrange(0, 5)[0] == low[0]);
    assert(low[0] == 's');
    if crate::text::starts_with(low, "vol:"@) {
        assert(low.subrange(0, 4)[0] == low[0]);
        assert(false);
    }
    law_sort_name_is_flag(app.prefs.sort_mode);
}

/// Whether a mount's line of the report keeps its columns: the mount point, the
/// percentage and the two sizes each fit their fields.
pub open spec fn row_fits(d: DiskEntry, pct: Seq<char>, mode: UnitMode) -> bool {
    &&& d.mount@.len() <= 30
    &&& pct.len() <= 4
    &&& crate::helpers::bytes_text(d.used as nat, mode).len() <= 10
    &&& crate::helpers::bytes_text(d.total as nat, mode).len() <= 10
}

/// A report line whose fields fit is 59 characters long, with the used size in
/// columns 37 to 46 and the total size in columns 48 to 57, each right-aligned.
#[verifier::spinoff_prover]
#[verifier::rlimit(30)]
proof fn lemma_row_fields(d: DiskEntry, pct: Seq<char>, mode: UnitMode)
    requires
        row_fits(d, pct, mode),
    ensures
        crate::report::report_row(d, pct, mode).len() == 59,
        crate::report::report_row(d, pct, mode).subrange(0, 30) == crate::report::pad_right(d.mount@, 30),
        crate::report::report_row(d, pct, mode).subrange(31, 35) == crate::report::pad_left(pct, 4),
        crate::report::report_row(d, pct, mode)[35] == '%',
        crate::report::report_row(d, pct, mode).subrange(37, 47)
            == crate::report::pad_left(crate::helpers::bytes_text(d.used as nat, mode), 10),
        crate::report::report_row(d, pct, mode).subrange(48, 58)
            == crate::report::pad_left(crate::helpers::bytes_text(d.total as nat, mode), 10),
{
    reveal_strlit(" ");
    reveal_strlit("% ");
    reveal_strlit("\n");
    let a = crate::report::pad_right(d.mount@, 30) + " "@ + crate::report::pad_left(pct, 4) + "% "@;
    let u = crate::report::pad_left(crate::helpers::bytes_text(d.used as nat, mode), 10);
    let t = crate::report::pad_left(crate::helpers::bytes_text(d.total as nat, mode), 10);
    let r = crate::report::report_row(d, pct, mode);
    assert(a.len() == 37);
    assert(u.len() == 10 && t.len() == 10);
    assert(r == a + u + " "@ + t + "\n"@);
    assert(r.subrange(37, 47) =~= u);
    assert(r.subrange(48, 58) =~= t);
    assert(r.subrange(0, 30) =~= crate::report::pad_right(d.mount@, 30));
    assert(r.subrange(31, 35) =~= crate::report::pad_left(pct, 4));
}

/// The lines of a report whose fields all fit are 59 characters each, the `i`-th one
/// the line of the `i`-th mount.
#[verifier::spinoff_prover]
#[verifier::rlimit(30)]
proof fn lemma_rows_layout(ds: Seq<DiskEntry>, pcts: Seq<Seq<char>>, mode: UnitMode)
    requires
        ds.len() == pcts.len(),
        forall|i: int| 0 <= i < ds.len() ==> row_fits(#[trigger] ds[i], pcts[i], mode),
    ensures
        crate::report::report_rows(ds, pcts, mode).len() == 59 * ds.len(),
        forall|i: int|
            0 <= i < ds.len() ==> crate::report::report_rows(ds, pcts, mode).subrange(59 * i, 59 * i + 59)
                == crate::report::report_row(#[trigger] ds[i], pcts[i], mode),
    decreases ds.len(),
{
    if ds.len() > 0 {
        let n = ds.len() - 1;
        let ds0 = ds.drop_last();
        let ps0 = pcts.drop_last();
        assert forall|i: int| 0 <= i < ds0.len() implies row_fits(#[trigger] ds0[i], ps0[i], mode) by {
            assert(ds0[i] == ds[i] && ps0[i] == pcts[i]);
        }
        lemma_rows_layout(ds0, ps0, mode);
        assert(row_fits(ds[n], pcts[n], mode));
        lemma_row_fields(ds.last(), pcts.last(), mode);
        let front = crate::report::report_rows(ds0, ps0, mode);
        let last = crate::report::report_row(ds.last(), pcts.last(), mode);
        assert(crate::report::report_rows(ds, pcts, mode) == front + last);
        assert forall|i: int| 0 <= i < ds.len() implies (front + last).subrange(59 * i, 59 * i + 59)
            == crate::report::report_row(#[trigger] ds[i], pcts[i], mode) by {
            if i < n {
                assert(ds0[i] == ds[i] && ps0[i] == pcts[i]);
                assert((front + last).subrange(59 * i, 59 * i + 59) =~= front.subrange(59 * i, 59 * i + 59));
            } else {
                assert((front + last).subrange(59 * i, 59 * i + 59) =~= last);
            }
        }
    }
}

/// The report before its mount lines: the title, the header and the rule.
pub open spec fn report_head(host: Seq<char>, date: Seq<char>, time: Seq<char>) -> Seq<char> {
    "DISK MATRIX EXPORT\n"@ + "Host: "@ + host + "  Date: "@ + date + " "@ + time + "\n\n"@ + crate::report::pad_right(
        "MOUNT"@,
        30,
    ) + " "@ + crate::report::pad_left("PCT"@, 5) + " "@ + crate::report::pad_left("USED"@, 10) + " "@
        + crate::report::pad_left("TOTAL"@, 10) + "\n"@ + Seq::new(60, |i: int| '-') + "\n"@
}

/// The title takes `36` characters besides the host, date and time, and the header and
/// rule 120 more, with `USED` and `TOTAL` right-aligned in columns 37 to 46 and 48 to 57
/// of the header.
#[verifier::spinoff_prover]
#[verifier::rlimit(30)]
proof fn lemma_report_head(host: Seq<char>, date: Seq<char>, time: Seq<char>)
    ensures
        ({
            let h = report_head(host, date, time);
            let k: int = (36 + host.len() + date.len() + time.len()) as int;
            &&& h.len() == k + 120
            &&& h.subrange(k + 37, k + 47) == crate::report::pad_left("USED"@, 10)
            &&& h.subrange(k + 48, k + 58) == crate::report::pad_left("TOTAL"@, 10)
        }),
{
    reveal_strlit("DISK MATRIX EXPORT\n");
    reveal_strlit("Host: ");
    reveal_strlit("  Date: ");
    reveal_strlit(" ");
    reveal_strlit("\n\n");
    reveal_strlit("MOUNT");
    reveal_strlit("PCT");
    reveal_strlit("USED");
    reveal_strlit("TOTAL");
    reveal_strlit("\n");
    let k: int = (36 + host.len() + date.len() + time.len()) as int;
    let title = "DISK MATRIX EXPORT\n"@ + "Host: "@ + host + "  Date: "@ + date + " "@ + time + "\n\n"@;
    let a = crate::report::pad_right("MOUNT"@, 30) + " "@ + crate::report::pad_left("PCT"@, 5) + " "@;
    let used = crate::report::pad_left("USED"@, 10);
    let total = crate::report::pad_left("TOTAL"@, 10);
    let rest = "\n"@ + Seq::new(60, |i: int| '-') + "\n"@;
    assert(title.len() == k);
    assert(a.len() == 37);
    assert(used.len() == 10 && total.len() == 10);
    let h = report_head(host, date, time);
    assert(h =~= title + a + used + " "@ + total + rest);
    assert(h.subrange(k + 37, k + 47) =~= used);
    assert(h.subrange(k + 48, k + 58) =~= total);
}

/// The line of the `i`-th mount in a report whose fields all fit: it starts `120`
/// characters after the title, 59 characters per earlier line, and holds the mount
/// point, the percentage and the two sizes in their columns.
#[verifier::spinoff_prover]
#[verifier::rlimit(30)]
proof fn lemma_report_line(
    host: Seq<char>,
    date: Seq<char>,
    time: Seq<char>,
    ds: Seq<DiskEntry>,
    pcts: Seq<Seq<char>>,
    mode: UnitMode,
    i: int,
)
    requires
        ds.len() == pcts.len(),
        forall|j: int| 0 <= j < ds.len() ==> row_fits(#[trigger] ds[j], pcts[j], mode),
        0 <= i < ds.len(),
    ensures
        ({
            let r = crate::report::report_text(host, date, time, ds, pcts, mode);
            let s: int = (36 + host.len() + date.len() + time.len()) as int + 120 + 59 * i;
            &&& r.subrange(s, s + 30) == crate::report::pad_right(ds[i].mount@, 30)
            &&& r.subrange(s + 31, s + 35) == crate::report::pad_left(pcts[i], 4)
            &&& r.subrange(s + 37, s + 47) == crate::report::pad_left(
                crate::helpers::bytes_text(ds[i].used as nat, mode),
                10,
            )
            &&& r.subrange(s + 48, s + 58) == crate::report::pad_left(
                crate::helpers::bytes_text(ds[i].total as nat, mode),
                10,
            )
        }),
{
    lemma_rows_layout(ds, pcts, mode);
    lemma_report_head(host, date, time);
    lemma_row_fields(ds[i], pcts[i], mode);
    let k: int = (36 + host.len() + date.len() + time.len()) as int;
    let s: int = k + 120 + 59 * i;
    let h = report_head(host, date, time);
    let rows = crate::report::report_rows(ds, pcts, mode);
    let r = crate::report::report_text(host, date, time, ds, pcts, mode);
    let row = crate::report::report_row(ds[i], pcts[i], mode);
    assert(r == h + rows);
    assert(rows.subrange(59 * i, 59 * i + 59) == row);
    assert(r.subrange(s, s + 30) =~= row.subrange(0, 30));
    assert(r.subrange(s + 31, s + 35) =~= row.subrange(31, 35));
    assert(r.subrange(s + 37, s + 47) =~= row.subrange(37, 47));
    assert(r.subrange(s + 48, s + 58) =~= row.subrange(48, 58));
}

/// A report whose fields all fit is 120 characters longer than its title and lines,
/// and its header holds `USED` and `TOTAL` right-aligned in columns 37 to 46 and 48
/// to 57.
#[verifier::spinoff_prover]
#[verifier::rlimit(30)]
proof fn lemma_report_header(
    host: Seq<char>,
    date: Seq<char>,
    time: Seq<char>,
    ds: Seq<DiskEntry>,
    pcts: Seq<Seq<char>>,
    mode: UnitMode,
)
    requires
        ds.len() == pcts.len(),
        forall|i: int| 0 <= i < ds.len() ==> row_fits(#[trigger] ds[i], pcts[i], mode),
    ensures
        ({
            let r = crate::report::report_text(host, date, time, ds, pcts, mode);
            let k: int = (36 + host.len() + date.len() + time.len()) as int;
            &&& r.len() == k + 120 + 59 * ds.len()
            &&& r.subrange(k + 37, k + 47) == crate::report::pad_left("USED"@, 10)
            &&& r.subrange(k + 48, k + 58) == crate::report::pad_left("TOTAL"@, 10)
        }),
{
    lemma_rows_layout(ds, pcts, mode);
    lemma_report_head(host, date, time);
    let k: int = (36 + host.len() + date.len() + time.len()) as int;
    let h = report_head(host, date, time);
    let rows = crate::report::report_rows(ds, pcts, mode);
    let r = crate::report::report_text(host, date, time, ds, pcts, mode);
    assert(r == h + rows);
    assert(r.subrange(k + 37, k + 47) =~= h.subrange(k + 37, k + 47));
    assert(r.subrange(k + 48, k + 58) =~= h.subrange(k + 48, k + 58));
}

/// The report's columns line up: where every field fits, the header names the used
/// column `USED` and the total column `TOTAL`, and the line of the `i`-th mount holds
/// its mount point first, its percentage under `PCT`, its used size right under `USED`
/// and its total size right under `TOTAL`. The title takes `k` characters, the header
/// and its rule 120, and each line 59.
#[verifier::spinoff_prover]
pub proof fn law_report_columns(
    host: Seq<char>,
    date: Seq<char>,
    time: Seq<char>,
    ds: Seq<DiskEntry>,
    pcts: Seq<Seq<char>>,
    mode: UnitMode,
)
    requires
        ds.len() == pcts.len(),
        forall|i: int| 0 <= i < ds.len() ==> row_fits(#[trigger] ds[i], pcts[i], mode),
    ensures
        ({
            let r = crate::report::report_text(host, date, time, ds, pcts, mode);
            let k: int = (36 + host.len() + date.len() + time.len()) as int;
            &&& r.len() == k + 120 + 59 * ds.len()
            &&& r.subrange(k + 37, k + 47) == crate::report::pad_left("USED"@, 10)
            &&& r.subrange(k + 48, k + 58) == crate::report::pad_left("TOTAL"@, 10)
            &&& forall|i: int|
                0 <= i < ds.len() ==> {
                    let s = k + 120 + 59 * i;
                    &&& r.subrange(s, s + 30) == crate::report::pad_right((#[trigger] ds[i]).mount@, 30)
                    &&& r.subrange(s + 31, s + 35) == crate::report::pad_left(pcts[i], 4)
                    &&& r.subrange(s + 37, s + 47) == crate::report::pad_left(
                        crate::helpers::bytes_text(ds[i].used as nat, mode),
                        10,
                    )
                    &&& r.subrange(s + 48, s + 58) == crate::report::pad_left(
                        crate::helpers::bytes_text(ds[i].total as nat, mode),
                        10,
                    )
                }
        }),
{
    lemma_report_header(host, date, time, ds, pcts, mode);
    let k: int = (36 + host.len() + date.len() + time.len()) as int;
    let r = crate::report::report_text(host, date, time, ds, pcts, mode);
    assert forall|i: int| 0 <= i < ds.len() implies {
        let s = k + 120 + 59 * i;
        &&& r.subrange(s, s + 30) == crate::report::pad_right((#[trigger] ds[i]).mount@, 30)
        &&& r.subrange(s + 31, s + 35) == crate::report::pad_left(pcts[i], 4)
        &&& r.subrange(s + 37, s + 47) == crate::report::pad_left(
            crate::helpers::bytes_text(ds[i].used as nat, mode),
            10,
        )
        &&& r.subrange(s + 48, s + 58) == crate::report::pad_left(
            crate::helpers::bytes_text(ds[i].total as nat, mode),
            10,
        )
    } by {
        lemma_report_line(host, date, time, ds, pcts, mode, i);
    }
}

/// A line `l + d` followed by text that opens with a line feed occurs, with that line
/// feed, in the whole.
proof fn lemma_line_at(x: Seq<char>, l: Seq<char>, d: Seq<char>, z: Seq<char>)
    requires
        z.len() > 0,
        z[0] == '\n',
    ensures
        crate::text::has_substring(x + l + d + z, l + d + seq!['\n']),
{
    let m = l + d + seq!['\n'];
    assert((x + l + d + z).subrange(x.len() as int, (x.len() + m.len()) as int) =~= m);
}

/// Six lines `lj + dj`, each followed by text that opens with a line feed, each occur
/// with that line feed.
proof fn lemma_six_lines(
    pre: Seq<char>,
    l0: Seq<char>,
    d0: Seq<char>,
    l1: Seq<char>,
    d1: Seq<char>,
    l2: Seq<char>,
    d2: Seq<char>,
    l3: Seq<char>,
    d3: Seq<char>,
    l4: Seq<char>,
    d4: Seq<char>,
    l5: Seq<char>,
    d5: Seq<char>,
    tl: Seq<char>,
)
    requires
        l1.len() > 0 && l1[0] == '\n',
        l2.len() > 0 && l2[0] == '\n',
        l3.len() > 0 && l3[0] == '\n',
        l4.len() > 0 && l4[0] == '\n',
        l5.len() > 0 && l5[0] == '\n',
        tl.len() > 0 && tl[0] == '\n',
    ensures
        ({
            let t = pre + l0 + d0 + l1 + d1 + l2 + d2 + l3 + d3 + l4 + d4 + l5 + d5 + tl;
            &&& crate::text::has_substring(t, l0 + d0 + seq!['\n'])
            &&& crate::text::has_substring(t, l1 + d1 + seq!['\n'])
            &&& crate::text::has_substring(t, l2 + d2 + seq!['\n'])
            &&& crate::text::has_substring(t, l3 + d3 + seq!['\n'])
            &&& crate::text::has_substring(t, l4 + d4 + seq!['\n'])
            &&& crate::text::has_substring(t, l5 + d5 + seq!['\n'])
        }),
{
    let t = pre + l0 + d0 + l1 + d1 + l2 + d2 + l3 + d3 + l4 + d4 + l5 + d5 + tl;
    let r0 = l1 + d1 + l2 + d2 + l3 + d3 + l4 + d4 + l5 + d5 + tl;
    assert(t =~= pre + l0 + d0 + r0);
    lemma_line_at(pre, l0, d0, r0);
    let x1 = pre + l0 + d0;
    let r1 = l2 + d2 + l3 + d3 + l4 + d4 + l5 + d5 + tl;
    assert(t =~= x1 + l1 + d1 + r1);
    lemma_line_at(x1, l1, d1, r1);
    let x2 = x1 + l1 + d1;
    let r2 = l3 + d3 + l4 + d4 + l5 + d5 + tl;
    assert(t =~= x2 + l2 + d2 + r2);
    lemma_line_at(x2, l2, d2, r2);
    let x3 = x2 + l2 + d2;
    let r3 = l4 + d4 + l5 + d5 + tl;
    assert(t =~= x3 + l3 + d3 + r3);
    lemma_line_at(x3, l3, d3, r3);
    let x4 = x3 + l3 + d3;
    let r4 = l5 + d5 + tl;
    assert(t =~= x4 + l4 + d4 + r4);
    lemma_line_at(x4, l4, d4, r4);
    let x5 = x4 + l4 + d4;
    assert(t =~= x5 + l5 + d5 + tl);
    lemma_line_at(x5, l5, d5, tl);
}

/// The exported theme gives each palette slot its own line, under the slot's name in
/// the configuration file: `blue` the first slot of the palette in force, `green` the
/// second, `purple` the third, `light_purple` the fourth, `royal` the fifth and
/// `dark_purple` the sixth, so that reading the theme back gives that palette.
pub proof fn law_export_theme_lines(p: Prefs)
    ensures
        ({
            let t = crate::listing::export_spec(p);
            let c = crate::palette::prefs_palette(p);
            &&& crate::text::has_substring(t, "\nblue         = "@ + crate::text::decimal(c.0 as nat) + seq!['\n'])
            &&& crate::text::has_substring(t, "\ngreen        = "@ + crate::text::decimal(c.1 as nat) + seq!['\n'])
            &&& crate::text::has_substring(t, "\npurple       = "@ + crate::text::decimal(c.2 as nat) + seq!['\n'])
            &&& crate::text::has_substring(t, "\nlight_purple = "@ + crate::text::decimal(c.3 as nat) + seq!['\n'])
            &&& crate::text::has_substring(t, "\nroyal        = "@ + crate::text::decimal(c.4 as nat) + seq!['\n'])
            &&& crate::text::has_substring(t, "\ndark_purple  = "@ + crate::text::decimal(c.5 as nat) + seq!['\n'])
        }),
{
    let name = crate::listing::export_name(p);
    let k = crate::listing::key_name(name);
    let c = crate::palette::prefs_palette(p);
    let tl = "\n\n# Paste into ~/.storageshower.conf and set:\n# active_theme = \""@ + k + "\"\n"@;
    let pre = "# "@ + name + " — exported from storageshower\n[custom_themes."@ + k + "]"@;
    assert("\ngreen        = "@[0] == '\n') by {
        reveal_strlit("\ngreen        = ");
    }
    assert("\npurple       = "@[0] == '\n' && "\npurple       = "@.len() > 0) by {
        reveal_strlit("\npurple       = ");
    }
    assert("\nlight_purple = "@[0] == '\n' && "\nlight_purple = "@.len() > 0) by {
        reveal_strlit("\nlight_purple = ");
    }
    assert("\nroyal        = "@[0] == '\n' && "\nroyal        = "@.len() > 0) by {
        reveal_strlit("\nroyal        = ");
    }
    assert("\ndark_purple  = "@[0] == '\n' && "\ndark_purple  = "@.len() > 0) by {
        reveal_strlit("\ndark_purple  = ");
    }
    assert("\ngreen        = "@.len() > 0) by {
        reveal_strlit("\ngreen        = ");
    }
    let head = "\n\n# Paste into ~/.storageshower.conf and set:\n# active_theme = \""@;
    assert(head.len() > 0 && head[0] == '\n') by {
        reveal_strlit("\n\n# Paste into ~/.storageshower.conf and set:\n# active_theme = \"");
    }
    assert(tl.len() > 0 && tl[0] == '\n') by {
        assert(tl[0] == head[0]);
    }
    assert("]\nblue         = "@ =~= "]"@ + "\nblue         = "@) by {
        reveal_strlit("]\nblue         = ");
        reveal_strlit("]");
        reveal_strlit("\nblue         = ");
    }
    let t = crate::listing::export_spec(p);
    assert(t =~= pre + "\nblue         = "@ + crate::text::decimal(c.0 as nat) + "\ngreen        = "@
        + crate::text::decimal(c.1 as nat) + "\npurple       = "@ + crate::text::decimal(c.2 as nat)
        + "\nlight_purple = "@ + crate::text::decimal(c.3 as nat) + "\nroyal        = "@
        + crate::text::decimal(c.4 as nat) + "\ndark_purple  = "@ + crate::text::decimal(c.5 as nat) + tl);
    lemma_six_lines(
        pre,
        "\nblue         = "@,
        crate::text::decimal(c.0 as nat),
        "\ngreen        = "@,
        crate::text::decimal(c.1 as nat),
        "\npurple       = "@,
        crate::text::decimal(c.2 as nat),
        "\nlight_purple = "@,
        crate::text::decimal(c.3 as nat),
        "\nroyal        = "@,
        crate::text::decimal(c.4 as nat),
        "\ndark_purple  = "@,
        crate::text::decimal(c.5 as nat),
        tl,
    );
}

} // verus!
