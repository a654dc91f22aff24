//! The texts that `--list-colors` and `--export-theme` print.
use vstd::prelude::*;
use crate::palette::{palette, palette_for_prefs, palette_spec, prefs_palette, theme_lookup, find_theme, theme_tuple};
use crate::prefs::Prefs;
use crate::report::{pad_right, push_pad_right};
use crate::text::{
    alphanumeric, ascii_lower, decimal, is_alphanumeric, push_chars, push_decimal, push_str, str_chars,
    string_from_chars, to_ascii_lower,
};
use crate::types::{color_at, color_flag, color_name, ColorMode, COLOR_MODE_COUNT};

verus! {

/// The widest `--color` spelling among the first `n` palettes.
pub open spec fn widest_flag(n: nat) -> nat
    decreases n,
{
    if n == 0 {
        0
    } else {
        let w = widest_flag((n - 1) as nat);
        let l = color_flag(color_at(n - 1)).len();
        if l > w { l } else { w }
    }
}

/// The widest display name among the first `n` palettes.
pub open spec fn widest_name(n: nat) -> nat
    decreases n,
{
    if n == 0 {
        0
    } else {
        let w = widest_name((n - 1) as nat);
        let l = color_name(color_at(n - 1)).len();
        if l > w { l } else { w }
    }
}

/// Three blanks on the background of 256-color `c`.
pub open spec fn swatch_cell(c: u8) -> Seq<char> {
    "\x1b[48;5;"@ + decimal(c as nat) + "m   \x1b[0m"@
}

/// The six swatches of a palette, side by side.
pub open spec fn swatch(p: (u8, u8, u8, u8, u8, u8)) -> Seq<char> {
    swatch_cell(p.0) + swatch_cell(p.1) + swatch_cell(p.2) + swatch_cell(p.3) + swatch_cell(p.4)
        + swatch_cell(p.5)
}

/// The table row of palette `m`, its spelling and name padded to `fw` and `nw`.
pub open spec fn palette_row(m: ColorMode, fw: nat, nw: nat) -> Seq<char> {
    "  \x1b[1;32m"@ + pad_right(color_flag(m), fw) + "\x1b[0m \x1b[1;35m"@ + pad_right(color_name(m), nw)
        + "\x1b[0m "@ + swatch(palette_spec(m)) + "\n"@
}

/// The rows of the first `n` palettes.
pub open spec fn palette_rows(n: nat, fw: nat, nw: nat) -> Seq<char>
    decreases n,
{
    if n == 0 {
        Seq::empty()
    } else {
        palette_rows((n - 1) as nat, fw, nw) + palette_row(color_at(n - 1), fw, nw)
    }
}

/// The `--list-colors` table: a row per builtin palette, the columns as wide as their
/// widest entry, then how to pick one.
pub open spec fn colors_spec() -> Seq<char> {
    "\n\x1b[1;36m  ── BUILTIN COLOR SCHEMES ────────────────────────\x1b[0m\n\n"@ + palette_rows(30, widest_flag(30), widest_name(30)) + "\n  \x1b[1;33mUsage:\x1b[0m   storageshower \x1b[1;32m--color\x1b[0m \x1b[1;35m<flag>\x1b[0m\n"@ + "  \x1b[1;33mChooser:\x1b[0m press \x1b[1;32mc\x1b[0m in the TUI for the live theme picker\n\n"@
}

/// Appends the swatch of 256-color `c`.
fn push_swatch_cell(v: &mut Vec<char>, c: u8)
    ensures
        final(v)@ == old(v)@ + swatch_cell(c),
{
    push_str(v, "\x1b[48;5;");
    push_decimal(v, c as u64);
    push_str(v, "m   \x1b[0m");
    assert(v@ =~= old(v)@ + swatch_cell(c));
}

/// Appends the six swatches of a palette.
fn push_swatch(v: &mut Vec<char>, p: (u8, u8, u8, u8, u8, u8))
    ensures
        final(v)@ == old(v)@ + swatch(p),
{
    push_swatch_cell(v, p.0);
    push_swatch_cell(v, p.1);
    push_swatch_cell(v, p.2);
    push_swatch_cell(v, p.3);
    push_swatch_cell(v, p.4);
    push_swatch_cell(v, p.5);
    assert(v@ =~= old(v)@ + swatch(p));
}

/// Appends the table row of palette `m`.
fn push_palette_row(v: &mut Vec<char>, m: ColorMode, fw: usize, nw: usize)
    ensures
        final(v)@ == old(v)@ + palette_row(m, fw as nat, nw as nat),
{
    push_str(v, "  \x1b[1;32m");
    let f = str_chars(m.flag());
    push_pad_right(v, f.as_slice(), fw);
    push_str(v, "\x1b[0m \x1b[1;35m");
    let n = str_chars(m.name());
    push_pad_right(v, n.as_slice(), nw);
    push_str(v, "\x1b[0m ");
    push_swatch(v, palette(m));
    push_str(v, "\n");
    assert(v@ =~= old(v)@ + palette_row(m, fw as nat, nw as nat));
}

/// The widths of the spelling and name columns of the table.
#[verifier::spinoff_prover]
fn palette_widths() -> (r: (usize, usize))
    ensures
        r.0 == widest_flag(30),
        r.1 == widest_name(30),
{
    let mut fw: usize = 0;
    let mut nw: usize = 0;
    let mut i: usize = 0;
    while i < COLOR_MODE_COUNT
        invariant
            i <= COLOR_MODE_COUNT,
            fw == widest_flag(i as nat),
            nw == widest_name(i as nat),
        decreases COLOR_MODE_COUNT - i,
    {
        let m = ColorMode::from_index(i);
        let f = str_chars(m.flag());
        let n = str_chars(m.name());
        if f.len() > fw {
            fw = f.len();
        }
        if n.len() > nw {
            nw = n.len();
        }
        i = i + 1;
    }
    (fw, nw)
}

/// The `--list-colors` table (see `colors_spec`).
pub fn colors_text() -> (r: String)
    ensures
        r@ == colors_spec(),
{
    let (fw, nw) = palette_widths();
    let mut v: Vec<char> = Vec::new();
    push_str(&mut v, "\n\x1b[1;36m  ── BUILTIN COLOR SCHEMES ────────────────────────\x1b[0m\n\n");
    let ghost head = v@;
    let mut i: usize = 0;
    while i < COLOR_MODE_COUNT
        invariant
            i <= COLOR_MODE_COUNT,
            fw == widest_flag(30),
            nw == widest_name(30),
            v@ == head + palette_rows(i as nat, fw as nat, nw as nat),
        decreases COLOR_MODE_COUNT - i,
    {
        let m = ColorMode::from_index(i);
        push_palette_row(&mut v, m, fw, nw);
        i = i + 1;
        assert(v@ =~= head + palette_rows(i as nat, fw as nat, nw as nat));
    }
    push_str(&mut v, "\n  \x1b[1;33mUsage:\x1b[0m   storageshower \x1b[1;32m--color\x1b[0m \x1b[1;35m<flag>\x1b[0m\n");
    push_str(&mut v, "  \x1b[1;33mChooser:\x1b[0m press \x1b[1;32mc\x1b[0m in the TUI for the live theme picker\n\n");
    assert(v@ =~= colors_spec());
    string_from_chars(v.as_slice())
}

/// The name under which the palette in effect is exported: the active custom theme's,
/// when it names one that exists, otherwise the builtin palette's display name.
pub open spec fn export_name(p: Prefs) -> Seq<char> {
    match p.active_theme {
        Some(n) => match find_theme(p.custom_themes@, n@) {
            Some(_) => n@,
            None => color_name(p.color_mode),
        },
        None => color_name(p.color_mode),
    }
}

/// A character of a name as it may stand in a TOML key: letters and digits (ASCII
/// ones made small) and `_` stay, anything else becomes `_`.
pub open spec fn key_char(c: char) -> char {
    if alphanumeric(c) || c == '_' {
        ascii_lower(c)
    } else {
        '_'
    }
}

/// A name made fit to stand in a TOML key (see `key_char`).
pub open spec fn key_name(s: Seq<char>) -> Seq<char> {
    s.map_values(|c: char| key_char(c))
}

/// The `--export-theme` text: the palette in effect as a `[custom_themes.<name>]`
/// table of the configuration file, and how to activate it.
pub open spec fn export_spec(p: Prefs) -> Seq<char> {
    let name = export_name(p);
    let k = key_name(name);
    let c = prefs_palette(p);
    "# "@ + name + " — exported from storageshower\n[custom_themes."@ + k + "]\nblue         = "@
        + decimal(c.0 as nat) + "\ngreen        = "@ + decimal(c.1 as nat) + "\npurple       = "@
        + decimal(c.2 as nat) + "\nlight_purple = "@ + decimal(c.3 as nat) + "\nroyal        = "@
        + decimal(c.4 as nat) + "\ndark_purple  = "@ + decimal(c.5 as nat)
        + "\n\n# Paste into ~/.storageshower.conf and set:\n# active_theme = \""@ + k + "\"\n"@
}

/// The export name of the palette in effect (see `export_name`).
fn export_name_of(prefs: &Prefs) -> (r: Vec<char>)
    ensures
        r@ == export_name(*prefs),
{
    if let Some(n) = &prefs.active_theme {
        if theme_lookup(&prefs.custom_themes, n).is_some() {
            return str_chars(n.as_str());
        }
    }
    str_chars(prefs.color_mode.name())
}

/// A name made fit to stand in a TOML key (see `key_name`).
fn key_name_of(s: &[char]) -> (r: Vec<char>)
    ensures
        r@ == key_name(s@),
{
    let mut r: Vec<char> = Vec::new();
    let mut i: usize = 0;
    while i < s.len()
        invariant
            i <= s@.len(),
            r@ == key_name(s@.subrange(0, i as int)),
        decreases s@.len() - i,
    {
        let c = s[i];
        let k = if is_alphanumeric(c) || c == '_' {
            to_ascii_lower(c)
        } else {
            '_'
        };
        r.push(k);
        i = i + 1;
        assert(r@ =~= key_name(s@.subrange(0, i as int)));
    }
    assert(s@.subrange(0, s@.len() as int) =~= s@);
    r
}

/// The `--export-theme` text for the given preferences (see `export_spec`).
pub fn export_theme_text(prefs: &Prefs) -> (r: String)
    ensures
        r@ == export_spec(*prefs),
{
    let name = export_name_of(prefs);
    let k = key_name_of(name.as_slice());
    let c = palette_for_prefs(prefs);
    let mut v: Vec<char> = Vec::new();
    push_str(&mut v, "# ");
    push_chars(&mut v, name.as_slice());
    push_str(&mut v, " — exported from storageshower\n[custom_themes.");
    push_chars(&mut v, k.as_slice());
    push_str(&mut v, "]\nblue         = ");
    push_decimal(&mut v, c.0 as u64);
    push_str(&mut v, "\ngreen        = ");
    push_decimal(&mut v, c.1 as u64);
    push_str(&mut v, "\npurple       = ");
    push_decimal(&mut v, c.2 as u64);
    push_str(&mut v, "\nlight_purple = ");
    push_decimal(&mut v, c.3 as u64);
    push_str(&mut v, "\nroyal        = ");
    push_decimal(&mut v, c.4 as u64);
    push_str(&mut v, "\ndark_purple  = ");
    push_decimal(&mut v, c.5 as u64);
    push_str(&mut v, "\n\n# Paste into ~/.storageshower.conf and set:\n# active_theme = \"");
    push_chars(&mut v, k.as_slice());
    push_str(&mut v, "\"\n");
    assert(v@ =~= export_spec(*prefs));
    string_from_chars(v.as_slice())
}

} // verus!
