//! The builtin palettes and the palette in effect.
use vstd::prelude::*;
use crate::prefs::{themes_wf, Prefs};
use crate::types::{ColorMode, ThemeColors};

verus! {

/// The six 256-color indices of a builtin palette: blue, green, purple, light purple,
/// royal and dark purple slots.
pub open spec fn palette_spec(mode: ColorMode) -> (u8, u8, u8, u8, u8, u8) {
    match mode {
        ColorMode::Default => (27, 48, 135, 141, 63, 99),
        ColorMode::Green => (28, 46, 34, 40, 22, 35),
        ColorMode::Blue => (19, 39, 25, 33, 21, 32),
        ColorMode::Purple => (91, 177, 128, 134, 93, 97),
        ColorMode::Amber => (172, 214, 178, 220, 166, 130),
        ColorMode::Cyan => (37, 50, 44, 87, 30, 23),
        ColorMode::Red => (160, 203, 196, 210, 124, 88),
        ColorMode::Sakura => (175, 218, 182, 225, 169, 132),
        ColorMode::Matrix => (22, 46, 28, 119, 34, 22),
        ColorMode::Sunset => (202, 220, 196, 213, 160, 125),
        ColorMode::NeonNoir => (201, 231, 93, 219, 57, 53),
        ColorMode::ChromeHeart => (250, 255, 246, 253, 243, 239),
        ColorMode::BladeRunner => (208, 37, 166, 73, 130, 23),
        ColorMode::VoidWalker => (55, 99, 54, 141, 92, 17),
        ColorMode::ToxicWaste => (118, 190, 154, 226, 82, 58),
        ColorMode::CyberFrost => (159, 195, 153, 189, 111, 67),
        ColorMode::PlasmaCore => (199, 213, 163, 207, 126, 89),
        ColorMode::SteelNerve => (68, 110, 60, 146, 24, 236),
        ColorMode::DarkSignal => (30, 43, 23, 79, 29, 16),
        ColorMode::GlitchPop => (201, 51, 226, 47, 196, 21),
        ColorMode::HoloShift => (123, 219, 159, 183, 87, 133),
        ColorMode::NightCity => (214, 227, 209, 223, 172, 94),
        ColorMode::DeepNet => (19, 33, 17, 75, 26, 16),
        ColorMode::LaserGrid => (46, 201, 51, 226, 196, 21),
        ColorMode::QuantumFlux => (135, 75, 171, 111, 98, 61),
        ColorMode::BioHazard => (148, 184, 106, 192, 64, 22),
        ColorMode::Darkwave => (53, 140, 89, 176, 127, 52),
        ColorMode::Overlock => (196, 208, 160, 214, 124, 52),
        ColorMode::Megacorp => (252, 39, 245, 81, 242, 236),
        ColorMode::Zaibatsu => (167, 216, 131, 224, 95, 52),
    }
}

/// The six 256-color indices of a builtin palette.
pub fn palette(mode: ColorMode) -> (r: (u8, u8, u8, u8, u8, u8))
    ensures
        r == palette_spec(mode),
{
    match mode {
        ColorMode::Default => (27, 48, 135, 141, 63, 99),
        ColorMode::Green => (28, 46, 34, 40, 22, 35),
        ColorMode::Blue => (19, 39, 25, 33, 21, 32),
        ColorMode::Purple => (91, 177, 128, 134, 93, 97),
        ColorMode::Amber => (172, 214, 178, 220, 166, 130),
        ColorMode::Cyan => (37, 50, 44, 87, 30, 23),
        ColorMode::Red => (160, 203, 196, 210, 124, 88),
        ColorMode::Sakura => (175, 218, 182, 225, 169, 132),
        ColorMode::Matrix => (22, 46, 28, 119, 34, 22),
        ColorMode::Sunset => (202, 220, 196, 213, 160, 125),
        ColorMode::NeonNoir => (201, 231, 93, 219, 57, 53),
        ColorMode::ChromeHeart => (250, 255, 246, 253, 243, 239),
        ColorMode::BladeRunner => (208, 37, 166, 73, 130, 23),
        ColorMode::VoidWalker => (55, 99, 54, 141, 92, 17),
        ColorMode::ToxicWaste => (118, 190, 154, 226, 82, 58),
        ColorMode::CyberFrost => (159, 195, 153, 189, 111, 67),
        ColorMode::PlasmaCore => (199, 213, 163, 207, 126, 89),
        ColorMode::SteelNerve => (68, 110, 60, 146, 24, 236),
        ColorMode::DarkSignal => (30, 43, 23, 79, 29, 16),
        ColorMode::GlitchPop => (201, 51, 226, 47, 196, 21),
        ColorMode::HoloShift => (123, 219, 159, 183, 87, 133),
        ColorMode::NightCity => (214, 227, 209, 223, 172, 94),
        ColorMode::DeepNet => (19, 33, 17, 75, 26, 16),
        ColorMode::LaserGrid => (46, 201, 51, 226, 196, 21),
        ColorMode::QuantumFlux => (135, 75, 171, 111, 98, 61),
        ColorMode::BioHazard => (148, 184, 106, 192, 64, 22),
        ColorMode::Darkwave => (53, 140, 89, 176, 127, 52),
        ColorMode::Overlock => (196, 208, 160, 214, 124, 52),
        ColorMode::Megacorp => (252, 39, 245, 81, 242, 236),
        ColorMode::Zaibatsu => (167, 216, 131, 224, 95, 52),
    }
}

/// The colors of the first custom theme named `name`.
pub open spec fn find_theme(themes: Seq<(String, ThemeColors)>, name: Seq<char>) -> Option<ThemeColors>
    decreases themes.len(),
{
    if themes.len() == 0 {
        None
    } else if themes[0].0@ == name {
        Some(themes[0].1)
    } else {
        find_theme(themes.drop_first(), name)
    }
}

/// Looks up a custom theme by name.
pub fn theme_lookup(themes: &Vec<(String, ThemeColors)>, name: &String) -> (r: Option<ThemeColors>)
    ensures
        r == find_theme(themes@, name@),
{
    let mut i: usize = 0;
    assert(themes@.skip(0) =~= themes@);
    while i < themes.len()
        invariant
            i <= themes@.len(),
            find_theme(themes@, name@) == find_theme(themes@.skip(i as int), name@),
        decreases themes@.len() - i,
    {
        assert(themes@.skip(i as int).drop_first() =~= themes@.skip(i + 1));
        if themes[i].0 == *name {
            return Some(themes[i].1);
        }
        i = i + 1;
    }
    None
}

/// The six color indices of a theme.
pub open spec fn theme_tuple(t: ThemeColors) -> (u8, u8, u8, u8, u8, u8) {
    (t.blue, t.green, t.purple, t.light_purple, t.royal, t.dark_purple)
}

/// The palette in effect: the active custom theme when it names one that exists,
/// otherwise the builtin palette of the color mode.
pub open spec fn prefs_palette(p: Prefs) -> (u8, u8, u8, u8, u8, u8) {
    match p.active_theme {
        Some(name) => match find_theme(p.custom_themes@, name@) {
            Some(t) => theme_tuple(t),
            None => palette_spec(p.color_mode),
        },
        None => palette_spec(p.color_mode),
    }
}

/// The six color indices in effect for the given preferences.
pub fn palette_for_prefs(prefs: &Prefs) -> (r: (u8, u8, u8, u8, u8, u8))
    ensures
        r == prefs_palette(*prefs),
{
    if let Some(name) = &prefs.active_theme {
        if let Some(t) = theme_lookup(&prefs.custom_themes, name) {
            return (t.blue, t.green, t.purple, t.light_purple, t.royal, t.dark_purple);
        }
    }
    palette(prefs.color_mode)
}

/// `find_theme` gives the colors of the first theme with the name.
pub proof fn lemma_find_theme_at(themes: Seq<(String, ThemeColors)>, name: Seq<char>, i: int)
    requires
        0 <= i < themes.len(),
        themes[i].0@ == name,
        forall|j: int| 0 <= j < i ==> (#[trigger] themes[j]).0@ != name,
    ensures
        find_theme(themes, name) == Some(themes[i].1),
    decreases i,
{
    if i > 0 {
        assert(themes[0].0@ != name);
        assert forall|j: int| 0 <= j < i - 1 implies (#[trigger] themes.drop_first()[j]).0@ != name by {
            assert(themes.drop_first()[j] == themes[j + 1]);
        }
        lemma_find_theme_at(themes.drop_first(), name, i - 1);
    }
}

/// `find_theme` finds nothing when no theme has the name.
pub proof fn lemma_find_theme_none(themes: Seq<(String, ThemeColors)>, name: Seq<char>)
    requires
        forall|j: int| 0 <= j < themes.len() ==> (#[trigger] themes[j]).0@ != name,
    ensures
        find_theme(themes, name) is None,
    decreases themes.len(),
{
    if themes.len() > 0 {
        assert(themes[0].0@ != name);
        assert forall|j: int| 0 <= j < themes.len() - 1 implies (#[trigger] themes.drop_first()[j]).0@ != name by {
            assert(themes.drop_first()[j] == themes[j + 1]);
        }
        lemma_find_theme_none(themes.drop_first(), name);
    }
}

/// What `find_theme` gives in a table whose names are all different: the colors
/// stored under the name, if any.
pub proof fn lemma_find_theme_wf(themes: Seq<(String, ThemeColors)>, name: Seq<char>)
    requires
        themes_wf(themes),
    ensures
        find_theme(themes, name) == (if exists|i: int| 0 <= i < themes.len() && #[trigger] themes[i].0@ == name {
            Some(themes[choose|i: int| 0 <= i < themes.len() && #[trigger] themes[i].0@ == name].1)
        } else {
            None
        }),
{
    reveal(themes_wf);
    if exists|i: int| 0 <= i < themes.len() && #[trigger] themes[i].0@ == name {
        let i = choose|i: int| 0 <= i < themes.len() && #[trigger] themes[i].0@ == name;
        assert forall|j: int| 0 <= j < i implies (#[trigger] themes[j]).0@ != name by {
            assert(themes[j].0@ != themes[i].0@);
        }
        lemma_find_theme_at(themes, name, i);
    } else {
        lemma_find_theme_none(themes, name);
    }
}

/// `after` finds `colors` under `name`, and under every other name what `before` finds.
#[verifier::opaque]
pub open spec fn stores_theme(
    before: Seq<(String, ThemeColors)>,
    after: Seq<(String, ThemeColors)>,
    name: Seq<char>,
    colors: ThemeColors,
) -> bool {
    forall|n: Seq<char>|
        #[trigger] find_theme(after, n) == if n == name {
            Some(colors)
        } else {
            find_theme(before, n)
        }
}

/// Stores a custom theme under `name`, replacing the one of that name if there is one
/// (as inserting into a map does).
pub fn set_custom_theme(themes: &mut Vec<(String, ThemeColors)>, name: String, colors: ThemeColors)
    requires
        themes_wf(old(themes)@),
    ensures
        themes_wf(final(themes)@),
        stores_theme(old(themes)@, final(themes)@, name@, colors),
{
    reveal(stores_theme);
    reveal(themes_wf);
    let ghost before = themes@;
    let mut i: usize = 0;
    while i < themes.len()
        invariant
            before == themes@,
            i <= themes@.len(),
            forall|j: int| 0 <= j < i ==> (#[trigger] themes@[j]).0@ != name@,
        ensures
            before == themes@,
            i <= themes@.len(),
            forall|j: int| 0 <= j < i ==> (#[trigger] themes@[j]).0@ != name@,
            i < themes@.len() ==> themes@[i as int].0@ == name@,
        decreases themes@.len() - i,
    {
        if themes[i].0 == name {
            break;
        }
        i = i + 1;
    }
    let ghost nm = name@;
    if i < themes.len() {
        themes.set(i, (name, colors));
        assert forall|a: int, b: int|
            0 <= a < themes@.len() && 0 <= b < themes@.len() && a != b implies #[trigger] themes@[a].0@
            != #[trigger] themes@[b].0@ by {
            assert(before[a].0@ != before[b].0@);
        }
        assert forall|n: Seq<char>|
            #[trigger] find_theme(themes@, n) == if n == nm {
                Some(colors)
            } else {
                find_theme(before, n)
            } by {
            lemma_find_theme_wf(themes@, n);
            lemma_find_theme_wf(before, n);
            if n == nm {
                assert(themes@[i as int].0@ == n);
            } else {
                if exists|k: int| 0 <= k < before.len() && #[trigger] before[k].0@ == n {
                    let k = choose|k: int| 0 <= k < before.len() && #[trigger] before[k].0@ == n;
                    assert(themes@[k].0@ == n);
                }
                if exists|k: int| 0 <= k < themes@.len() && #[trigger] themes@[k].0@ == n {
                    let k = choose|k: int| 0 <= k < themes@.len() && #[trigger] themes@[k].0@ == n;
                    assert(before[k].0@ == n);
                }
            }
        }
    } else {
        themes.push((name, colors));
        assert forall|a: int, b: int|
            0 <= a < themes@.len() && 0 <= b < themes@.len() && a != b implies #[trigger] themes@[a].0@
            != #[trigger] themes@[b].0@ by {
            if a < before.len() && b < before.len() {
                assert(before[a].0@ != before[b].0@);
            } else if a < before.len() {
                assert(before[a].0@ != nm);
            } else {
                assert(before[b].0@ != nm);
            }
        }
        assert forall|n: Seq<char>|
            #[trigger] find_theme(themes@, n) == if n == nm {
                Some(colors)
            } else {
                find_theme(before, n)
            } by {
            lemma_find_theme_wf(themes@, n);
            lemma_find_theme_wf(before, n);
            if n == nm {
                assert(themes@[before.len() as int].0@ == n);
            } else {
                if exists|k: int| 0 <= k < before.len() && #[trigger] before[k].0@ == n {
                    let k = choose|k: int| 0 <= k < before.len() && #[trigger] before[k].0@ == n;
                    assert(themes@[k].0@ == n);
                }
                if exists|k: int| 0 <= k < themes@.len() && #[trigger] themes@[k].0@ == n {
                    let k = choose|k: int| 0 <= k < themes@.len() && #[trigger] themes@[k].0@ == n;
                    assert(before[k].0@ == n);
                }
            }
        }
    }
}

} // verus!
