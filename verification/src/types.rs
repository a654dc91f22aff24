use vstd::prelude::*;
use crate::text::chars_eq;

verus! {

/// Which column separator a mouse drag is moving.
#[derive(Clone, Copy, Debug, PartialEq, Eq, Structural)]
pub enum DragTarget {
    MountSep,
    BarEndSep,
    PctSep,
}

/// Order of the disk list.
#[derive(Clone, Copy, Debug, PartialEq, Eq, Structural)]
pub enum SortMode {
    Name,
    Pct,
    Size,
}

/// How usage bars are drawn.
#[derive(Clone, Copy, Debug, PartialEq, Eq, Structural)]
pub enum BarStyle {
    Gradient,
    Solid,
    Thin,
    Ascii,
}

/// The builtin color palettes, in the order in which they cycle.
#[derive(Clone, Copy, Debug, PartialEq, Eq, Structural)]
pub enum ColorMode {
    Default,
    Green,
    Blue,
    Purple,
    Amber,
    Cyan,
    Red,
    Sakura,
    Matrix,
    Sunset,
    NeonNoir,
    ChromeHeart,
    BladeRunner,
    VoidWalker,
    ToxicWaste,
    CyberFrost,
    PlasmaCore,
    SteelNerve,
    DarkSignal,
    GlitchPop,
    HoloShift,
    NightCity,
    DeepNet,
    LaserGrid,
    QuantumFlux,
    BioHazard,
    Darkwave,
    Overlock,
    Megacorp,
    Zaibatsu,
}

/// Number of builtin palettes.
pub const COLOR_MODE_COUNT: usize = 30;

/// Position of a palette in the cycling order.
pub open spec fn color_index(m: ColorMode) -> int {
    match m {
        ColorMode::Default => 0,
        ColorMode::Green => 1,
        ColorMode::Blue => 2,
        ColorMode::Purple => 3,
        ColorMode::Amber => 4,
        ColorMode::Cyan => 5,
        ColorMode::Red => 6,
        ColorMode::Sakura => 7,
        ColorMode::Matrix => 8,
        ColorMode::Sunset => 9,
        ColorMode::NeonNoir => 10,
        ColorMode::ChromeHeart => 11,
        ColorMode::BladeRunner => 12,
        ColorMode::VoidWalker => 13,
        ColorMode::ToxicWaste => 14,
        ColorMode::CyberFrost => 15,
        ColorMode::PlasmaCore => 16,
        ColorMode::SteelNerve => 17,
        ColorMode::DarkSignal => 18,
        ColorMode::GlitchPop => 19,
        ColorMode::HoloShift => 20,
        ColorMode::NightCity => 21,
        ColorMode::DeepNet => 22,
        ColorMode::LaserGrid => 23,
        ColorMode::QuantumFlux => 24,
        ColorMode::BioHazard => 25,
        ColorMode::Darkwave => 26,
        ColorMode::Overlock => 27,
        ColorMode::Megacorp => 28,
        ColorMode::Zaibatsu => 29,
    }
}

/// The palette at a position of the cycling order (positions taken modulo the count).
pub open spec fn color_at(i: int) -> ColorMode {
    let j = i % 30;
    if j == 0 { ColorMode::Default }
    else if j == 1 { ColorMode::Green }
    else if j == 2 { ColorMode::Blue }
    else if j == 3 { ColorMode::Purple }
    else if j == 4 { ColorMode::Amber }
    else if j == 5 { ColorMode::Cyan }
    else if j == 6 { ColorMode::Red }
    else if j == 7 { ColorMode::Sakura }
    else if j == 8 { ColorMode::Matrix }
    else if j == 9 { ColorMode::Sunset }
    else if j == 10 { ColorMode::NeonNoir }
    else if j == 11 { ColorMode::ChromeHeart }
    else if j == 12 { ColorMode::BladeRunner }
    else if j == 13 { ColorMode::VoidWalker }
    else if j == 14 { ColorMode::ToxicWaste }
    else if j == 15 { ColorMode::CyberFrost }
    else if j == 16 { ColorMode::PlasmaCore }
    else if j == 17 { ColorMode::SteelNerve }
    else if j == 18 { ColorMode::DarkSignal }
    else if j == 19 { ColorMode::GlitchPop }
    else if j == 20 { ColorMode::HoloShift }
    else if j == 21 { ColorMode::NightCity }
    else if j == 22 { ColorMode::DeepNet }
    else if j == 23 { ColorMode::LaserGrid }
    else if j == 24 { ColorMode::QuantumFlux }
    else if j == 25 { ColorMode::BioHazard }
    else if j == 26 { ColorMode::Darkwave }
    else if j == 27 { ColorMode::Overlock }
    else if j == 28 { ColorMode::Megacorp }
    else { ColorMode::Zaibatsu }
}

/// Display name of a palette.
pub open spec fn color_name(m: ColorMode) -> Seq<char> {
    match m {
        ColorMode::Default => "Neon Sprawl"@,
        ColorMode::Green => "Acid Rain"@,
        ColorMode::Blue => "Ice Breaker"@,
        ColorMode::Purple => "Synth Wave"@,
        ColorMode::Amber => "Rust Belt"@,
        ColorMode::Cyan => "Ghost Wire"@,
        ColorMode::Red => "Red Sector"@,
        ColorMode::Sakura => "Sakura Den"@,
        ColorMode::Matrix => "Data Stream"@,
        ColorMode::Sunset => "Solar Flare"@,
        ColorMode::NeonNoir => "Neon Noir"@,
        ColorMode::ChromeHeart => "Chrome Heart"@,
        ColorMode::BladeRunner => "Blade Runner"@,
        ColorMode::VoidWalker => "Void Walker"@,
        ColorMode::ToxicWaste => "Toxic Waste"@,
        ColorMode::CyberFrost => "Cyber Frost"@,
        ColorMode::PlasmaCore => "Plasma Core"@,
        ColorMode::SteelNerve => "Steel Nerve"@,
        ColorMode::DarkSignal => "Dark Signal"@,
        ColorMode::GlitchPop => "Glitch Pop"@,
        ColorMode::HoloShift => "Holo Shift"@,
        ColorMode::NightCity => "Night City"@,
        ColorMode::DeepNet => "Deep Net"@,
        ColorMode::LaserGrid => "Laser Grid"@,
        ColorMode::QuantumFlux => "Quantum Flux"@,
        ColorMode::BioHazard => "Bio Hazard"@,
        ColorMode::Darkwave => "Darkwave"@,
        ColorMode::Overlock => "Overlock"@,
        ColorMode::Megacorp => "Megacorp"@,
        ColorMode::Zaibatsu => "Zaibatsu"@,
    }
}

/// Spelling of a palette on the command line (`--color`).
pub open spec fn color_flag(m: ColorMode) -> Seq<char> {
    match m {
        ColorMode::Default => "default"@,
        ColorMode::Green => "green"@,
        ColorMode::Blue => "blue"@,
        ColorMode::Purple => "purple"@,
        ColorMode::Amber => "amber"@,
        ColorMode::Cyan => "cyan"@,
        ColorMode::Red => "red"@,
        ColorMode::Sakura => "sakura"@,
        ColorMode::Matrix => "matrix"@,
        ColorMode::Sunset => "sunset"@,
        ColorMode::NeonNoir => "neon-noir"@,
        ColorMode::ChromeHeart => "chrome-heart"@,
        ColorMode::BladeRunner => "blade-runner"@,
        ColorMode::VoidWalker => "void-walker"@,
        ColorMode::ToxicWaste => "toxic-waste"@,
        ColorMode::CyberFrost => "cyber-frost"@,
        ColorMode::PlasmaCore => "plasma-core"@,
        ColorMode::SteelNerve => "steel-nerve"@,
        ColorMode::DarkSignal => "dark-signal"@,
        ColorMode::GlitchPop => "glitch-pop"@,
        ColorMode::HoloShift => "holo-shift"@,
        ColorMode::NightCity => "night-city"@,
        ColorMode::DeepNet => "deep-net"@,
        ColorMode::LaserGrid => "laser-grid"@,
        ColorMode::QuantumFlux => "quantum-flux"@,
        ColorMode::BioHazard => "bio-hazard"@,
        ColorMode::Darkwave => "darkwave"@,
        ColorMode::Overlock => "overlock"@,
        ColorMode::Megacorp => "megacorp"@,
        ColorMode::Zaibatsu => "zaibatsu"@,
    }
}

/// Key of a builtin palette in the theme list: its variant name in lower case.
pub open spec fn color_key(m: ColorMode) -> Seq<char> {
    match m {
        ColorMode::Default => "default"@,
        ColorMode::Green => "green"@,
        ColorMode::Blue => "blue"@,
        ColorMode::Purple => "purple"@,
        ColorMode::Amber => "amber"@,
        ColorMode::Cyan => "cyan"@,
        ColorMode::Red => "red"@,
        ColorMode::Sakura => "sakura"@,
        ColorMode::Matrix => "matrix"@,
        ColorMode::Sunset => "sunset"@,
        ColorMode::NeonNoir => "neonnoir"@,
        ColorMode::ChromeHeart => "chromeheart"@,
        ColorMode::BladeRunner => "bladerunner"@,
        ColorMode::VoidWalker => "voidwalker"@,
        ColorMode::ToxicWaste => "toxicwaste"@,
        ColorMode::CyberFrost => "cyberfrost"@,
        ColorMode::PlasmaCore => "plasmacore"@,
        ColorMode::SteelNerve => "steelnerve"@,
        ColorMode::DarkSignal => "darksignal"@,
        ColorMode::GlitchPop => "glitchpop"@,
        ColorMode::HoloShift => "holoshift"@,
        ColorMode::NightCity => "nightcity"@,
        ColorMode::DeepNet => "deepnet"@,
        ColorMode::LaserGrid => "lasergrid"@,
        ColorMode::QuantumFlux => "quantumflux"@,
        ColorMode::BioHazard => "biohazard"@,
        ColorMode::Darkwave => "darkwave"@,
        ColorMode::Overlock => "overlock"@,
        ColorMode::Megacorp => "megacorp"@,
        ColorMode::Zaibatsu => "zaibatsu"@,
    }
}

impl ColorMode {
    /// Every builtin palette, in cycling order.
    pub const ALL: [ColorMode; 30] = [
        ColorMode::Default,
        ColorMode::Green,
        ColorMode::Blue,
        ColorMode::Purple,
        ColorMode::Amber,
        ColorMode::Cyan,
        ColorMode::Red,
        ColorMode::Sakura,
        ColorMode::Matrix,
        ColorMode::Sunset,
        ColorMode::NeonNoir,
        ColorMode::ChromeHeart,
        ColorMode::BladeRunner,
        ColorMode::VoidWalker,
        ColorMode::ToxicWaste,
        ColorMode::CyberFrost,
        ColorMode::PlasmaCore,
        ColorMode::SteelNerve,
        ColorMode::DarkSignal,
        ColorMode::GlitchPop,
        ColorMode::HoloShift,
        ColorMode::NightCity,
        ColorMode::DeepNet,
        ColorMode::LaserGrid,
        ColorMode::QuantumFlux,
        ColorMode::BioHazard,
        ColorMode::Darkwave,
        ColorMode::Overlock,
        ColorMode::Megacorp,
        ColorMode::Zaibatsu,
    ];

    /// Display name of the palette.
    pub fn name(self) -> (r: &'static str)
        ensures
            r@ == color_name(self),
    {
        match self {
            ColorMode::Default => "Neon Sprawl",
            ColorMode::Green => "Acid Rain",
            ColorMode::Blue => "Ice Breaker",
            ColorMode::Purple => "Synth Wave",
            ColorMode::Amber => "Rust Belt",
            ColorMode::Cyan => "Ghost Wire",
            ColorMode::Red => "Red Sector",
            ColorMode::Sakura => "Sakura Den",
            ColorMode::Matrix => "Data Stream",
            ColorMode::Sunset => "Solar Flare",
            ColorMode::NeonNoir => "Neon Noir",
            ColorMode::ChromeHeart => "Chrome Heart",
            ColorMode::BladeRunner => "Blade Runner",
            ColorMode::VoidWalker => "Void Walker",
            ColorMode::ToxicWaste => "Toxic Waste",
            ColorMode::CyberFrost => "Cyber Frost",
            ColorMode::PlasmaCore => "Plasma Core",
            ColorMode::SteelNerve => "Steel Nerve",
            ColorMode::DarkSignal => "Dark Signal",
            ColorMode::GlitchPop => "Glitch Pop",
            ColorMode::HoloShift => "Holo Shift",
            ColorMode::NightCity => "Night City",
            ColorMode::DeepNet => "Deep Net",
            ColorMode::LaserGrid => "Laser Grid",
            ColorMode::QuantumFlux => "Quantum Flux",
            ColorMode::BioHazard => "Bio Hazard",
            ColorMode::Darkwave => "Darkwave",
            ColorMode::Overlock => "Overlock",
            ColorMode::Megacorp => "Megacorp",
            ColorMode::Zaibatsu => "Zaibatsu",
        }
    }

    /// Spelling of the palette accepted by `--color`.
    pub fn flag(self) -> (r: &'static str)
        ensures
            r@ == color_flag(self),
    {
        match self {
            ColorMode::Default => "default",
            ColorMode::Green => "green",
            ColorMode::Blue => "blue",
            ColorMode::Purple => "purple",
            ColorMode::Amber => "amber",
            ColorMode::Cyan => "cyan",
            ColorMode::Red => "red",
            ColorMode::Sakura => "sakura",
            ColorMode::Matrix => "matrix",
            ColorMode::Sunset => "sunset",
            ColorMode::NeonNoir => "neon-noir",
            ColorMode::ChromeHeart => "chrome-heart",
            ColorMode::BladeRunner => "blade-runner",
            ColorMode::VoidWalker => "void-walker",
            ColorMode::ToxicWaste => "toxic-waste",
            ColorMode::CyberFrost => "cyber-frost",
            ColorMode::PlasmaCore => "plasma-core",
            ColorMode::SteelNerve => "steel-nerve",
            ColorMode::DarkSignal => "dark-signal",
            ColorMode::GlitchPop => "glitch-pop",
            ColorMode::HoloShift => "holo-shift",
            ColorMode::NightCity => "night-city",
            ColorMode::DeepNet => "deep-net",
            ColorMode::LaserGrid => "laser-grid",
            ColorMode::QuantumFlux => "quantum-flux",
            ColorMode::BioHazard => "bio-hazard",
            ColorMode::Darkwave => "darkwave",
            ColorMode::Overlock => "overlock",
            ColorMode::Megacorp => "megacorp",
            ColorMode::Zaibatsu => "zaibatsu",
        }
    }

    /// Key of the palette in the theme list (its variant name in lower case).
    pub fn key(self) -> (r: &'static str)
        ensures
            r@ == color_key(self),
    {
        match self {
            ColorMode::Default => "default",
            ColorMode::Green => "green",
            ColorMode::Blue => "blue",
            ColorMode::Purple => "purple",
            ColorMode::Amber => "amber",
            ColorMode::Cyan => "cyan",
            ColorMode::Red => "red",
            ColorMode::Sakura => "sakura",
            ColorMode::Matrix => "matrix",
            ColorMode::Sunset => "sunset",
            ColorMode::NeonNoir => "neonnoir",
            ColorMode::ChromeHeart => "chromeheart",
            ColorMode::BladeRunner => "bladerunner",
            ColorMode::VoidWalker => "voidwalker",
            ColorMode::ToxicWaste => "toxicwaste",
            ColorMode::CyberFrost => "cyberfrost",
            ColorMode::PlasmaCore => "plasmacore",
            ColorMode::SteelNerve => "steelnerve",
            ColorMode::DarkSignal => "darksignal",
            ColorMode::GlitchPop => "glitchpop",
            ColorMode::HoloShift => "holoshift",
            ColorMode::NightCity => "nightcity",
            ColorMode::DeepNet => "deepnet",
            ColorMode::LaserGrid => "lasergrid",
            ColorMode::QuantumFlux => "quantumflux",
            ColorMode::BioHazard => "biohazard",
            ColorMode::Darkwave => "darkwave",
            ColorMode::Overlock => "overlock",
            ColorMode::Megacorp => "megacorp",
            ColorMode::Zaibatsu => "zaibatsu",
        }
    }

    /// Position of the palette in [`ColorMode::ALL`].
    pub fn index(self) -> (r: usize)
        ensures
            r as int == color_index(self),
            r < COLOR_MODE_COUNT,
    {
        match self {
            ColorMode::Default => 0,
            ColorMode::Green => 1,
            ColorMode::Blue => 2,
            ColorMode::Purple => 3,
            ColorMode::Amber => 4,
            ColorMode::Cyan => 5,
            ColorMode::Red => 6,
            ColorMode::Sakura => 7,
            ColorMode::Matrix => 8,
            ColorMode::Sunset => 9,
            ColorMode::NeonNoir => 10,
            ColorMode::ChromeHeart => 11,
            ColorMode::BladeRunner => 12,
            ColorMode::VoidWalker => 13,
            ColorMode::ToxicWaste => 14,
            ColorMode::CyberFrost => 15,
            ColorMode::PlasmaCore => 16,
            ColorMode::SteelNerve => 17,
            ColorMode::DarkSignal => 18,
            ColorMode::GlitchPop => 19,
            ColorMode::HoloShift => 20,
            ColorMode::NightCity => 21,
            ColorMode::DeepNet => 22,
            ColorMode::LaserGrid => 23,
            ColorMode::QuantumFlux => 24,
            ColorMode::BioHazard => 25,
            ColorMode::Darkwave => 26,
            ColorMode::Overlock => 27,
            ColorMode::Megacorp => 28,
            ColorMode::Zaibatsu => 29,
        }
    }

    /// The palette at position `i` of [`ColorMode::ALL`].
    pub fn from_index(i: usize) -> (r: ColorMode)
        requires
            i < COLOR_MODE_COUNT,
        ensures
            r == color_at(i as int),
    {
        if i == 0 {
            ColorMode::Default
        } else if i == 1 {
            ColorMode::Green
        } else if i == 2 {
            ColorMode::Blue
        } else if i == 3 {
            ColorMode::Purple
        } else if i == 4 {
            ColorMode::Amber
        } else if i == 5 {
            ColorMode::Cyan
        } else if i == 6 {
            ColorMode::Red
        } else if i == 7 {
            ColorMode::Sakura
        } else if i == 8 {
            ColorMode::Matrix
        } else if i == 9 {
            ColorMode::Sunset
        } else if i == 10 {
            ColorMode::NeonNoir
        } else if i == 11 {
            ColorMode::ChromeHeart
        } else if i == 12 {
            ColorMode::BladeRunner
        } else if i == 13 {
            ColorMode::VoidWalker
        } else if i == 14 {
            ColorMode::ToxicWaste
        } else if i == 15 {
            ColorMode::CyberFrost
        } else if i == 16 {
            ColorMode::PlasmaCore
        } else if i == 17 {
            ColorMode::SteelNerve
        } else if i == 18 {
            ColorMode::DarkSignal
        } else if i == 19 {
            ColorMode::GlitchPop
        } else if i == 20 {
            ColorMode::HoloShift
        } else if i == 21 {
            ColorMode::NightCity
        } else if i == 22 {
            ColorMode::DeepNet
        } else if i == 23 {
            ColorMode::LaserGrid
        } else if i == 24 {
            ColorMode::QuantumFlux
        } else if i == 25 {
            ColorMode::BioHazard
        } else if i == 26 {
            ColorMode::Darkwave
        } else if i == 27 {
            ColorMode::Overlock
        } else if i == 28 {
            ColorMode::Megacorp
        } else {
            ColorMode::Zaibatsu
        }
    }

    /// The palette that follows this one, wrapping from the last to the first.
    pub fn next(self) -> (r: ColorMode)
        ensures
            r == color_at(color_index(self) + 1),
    {
        let i = self.index();
        if i + 1 == COLOR_MODE_COUNT {
            ColorMode::from_index(0)
        } else {
            ColorMode::from_index(i + 1)
        }
    }

    /// The builtin palette whose theme-list key is `k`, if any.
    pub fn from_key(k: &[char]) -> (r: Option<ColorMode>)
        ensures
            r matches Some(m) ==> color_key(m) == k@ && exists|i: int| 0 <= i < 30 && #[trigger] color_at(i) == m,
            r is None ==> forall|i: int| 0 <= i < 30 ==> color_key(#[trigger] color_at(i)) != k@,
    {
        let mut i: usize = 0;
        while i < COLOR_MODE_COUNT
            invariant
                i <= COLOR_MODE_COUNT,
                forall|j: int| 0 <= j < i ==> color_key(#[trigger] color_at(j)) != k@,
            decreases COLOR_MODE_COUNT - i,
        {
            let m = ColorMode::from_index(i);
            if chars_eq(k, m.key()) {
                return Some(m);
            }
            i = i + 1;
        }
        None
    }

    /// The palette whose `--color` spelling is `s`, if any.
    pub fn from_flag(s: &[char]) -> (r: Option<ColorMode>)
        ensures
            r == color_from(s@),
            r matches Some(m) ==> color_flag(m) == s@,
            r is None ==> forall|m: ColorMode| color_flag(m) != s@,
    {
        if chars_eq(s, "default") {
            Some(ColorMode::Default)
        } else if chars_eq(s, "green") {
            Some(ColorMode::Green)
        } else if chars_eq(s, "blue") {
            Some(ColorMode::Blue)
        } else if chars_eq(s, "purple") {
            Some(ColorMode::Purple)
        } else if chars_eq(s, "amber") {
            Some(ColorMode::Amber)
        } else if chars_eq(s, "cyan") {
            Some(ColorMode::Cyan)
        } else if chars_eq(s, "red") {
            Some(ColorMode::Red)
        } else if chars_eq(s, "sakura") {
            Some(ColorMode::Sakura)
        } else if chars_eq(s, "matrix") {
            Some(ColorMode::Matrix)
        } else if chars_eq(s, "sunset") {
            Some(ColorMode::Sunset)
        } else if chars_eq(s, "neon-noir") {
            Some(ColorMode::NeonNoir)
        } else if chars_eq(s, "chrome-heart") {
            Some(ColorMode::ChromeHeart)
        } else if chars_eq(s, "blade-runner") {
            Some(ColorMode::BladeRunner)
        } else if chars_eq(s, "void-walker") {
            Some(ColorMode::VoidWalker)
        } else if chars_eq(s, "toxic-waste") {
            Some(ColorMode::ToxicWaste)
        } else if chars_eq(s, "cyber-frost") {
            Some(ColorMode::CyberFrost)
        } else if chars_eq(s, "plasma-core") {
            Some(ColorMode::PlasmaCore)
        } else if chars_eq(s, "steel-nerve") {
            Some(ColorMode::SteelNerve)
        } else if chars_eq(s, "dark-signal") {
            Some(ColorMode::DarkSignal)
        } else if chars_eq(s, "glitch-pop") {
            Some(ColorMode::GlitchPop)
        } else if chars_eq(s, "holo-shift") {
            Some(ColorMode::HoloShift)
        } else if chars_eq(s, "night-city") {
            Some(ColorMode::NightCity)
        } else if chars_eq(s, "deep-net") {
            Some(ColorMode::DeepNet)
        } else if chars_eq(s, "laser-grid") {
            Some(ColorMode::LaserGrid)
        } else if chars_eq(s, "quantum-flux") {
            Some(ColorMode::QuantumFlux)
        } else if chars_eq(s, "bio-hazard") {
            Some(ColorMode::BioHazard)
        } else if chars_eq(s, "darkwave") {
            Some(ColorMode::Darkwave)
        } else if chars_eq(s, "overlock") {
            Some(ColorMode::Overlock)
        } else if chars_eq(s, "megacorp") {
            Some(ColorMode::Megacorp)
        } else if chars_eq(s, "zaibatsu") {
            Some(ColorMode::Zaibatsu)
        } else {
            None
        }
    }
}

/// Spelling of a sort mode on the command line.
pub open spec fn sort_flag(m: SortMode) -> Seq<char> {
    match m {
        SortMode::Name => "name"@,
        SortMode::Pct => "pct"@,
        SortMode::Size => "size"@,
    }
}

impl SortMode {
    /// Every sort mode, in declaration order.
    pub const ALL: [SortMode; 3] = [SortMode::Name, SortMode::Pct, SortMode::Size];

    /// Spelling accepted by `--sort`.
    pub fn flag(self) -> (r: &'static str)
        ensures
            r@ == sort_flag(self),
    {
        match self {
            SortMode::Name => "name",
            SortMode::Pct => "pct",
            SortMode::Size => "size",
        }
    }

    /// The sort mode whose `--sort` spelling is `s`, if any.
    pub fn from_flag(s: &[char]) -> (r: Option<SortMode>)
        ensures
            r == sort_from(s@),
            r matches Some(m) ==> sort_flag(m) == s@,
            r is None ==> forall|m: SortMode| sort_flag(m) != s@,
    {
        if chars_eq(s, "name") {
            Some(SortMode::Name)
        } else if chars_eq(s, "pct") {
            Some(SortMode::Pct)
        } else if chars_eq(s, "size") {
            Some(SortMode::Size)
        } else {
            None
        }
    }
}

/// Spelling of a bar style on the command line.
pub open spec fn bar_flag(b: BarStyle) -> Seq<char> {
    match b {
        BarStyle::Gradient => "gradient"@,
        BarStyle::Solid => "solid"@,
        BarStyle::Thin => "thin"@,
        BarStyle::Ascii => "ascii"@,
    }
}

/// The bar style that follows `b` when cycling.
pub open spec fn bar_next(b: BarStyle) -> BarStyle {
    match b {
        BarStyle::Gradient => BarStyle::Solid,
        BarStyle::Solid => BarStyle::Thin,
        BarStyle::Thin => BarStyle::Ascii,
        BarStyle::Ascii => BarStyle::Gradient,
    }
}

impl BarStyle {
    /// Every bar style, in cycling order.
    pub const ALL: [BarStyle; 4] = [BarStyle::Gradient, BarStyle::Solid, BarStyle::Thin, BarStyle::Ascii];

    /// Spelling accepted by `--bar-style`.
    pub fn flag(self) -> (r: &'static str)
        ensures
            r@ == bar_flag(self),
    {
        match self {
            BarStyle::Gradient => "gradient",
            BarStyle::Solid => "solid",
            BarStyle::Thin => "thin",
            BarStyle::Ascii => "ascii",
        }
    }

    /// The bar style whose `--bar-style` spelling is `s`, if any.
    pub fn from_flag(s: &[char]) -> (r: Option<BarStyle>)
        ensures
            r == bar_from(s@),
            r matches Some(m) ==> bar_flag(m) == s@,
            r is None ==> forall|m: BarStyle| bar_flag(m) != s@,
    {
        if chars_eq(s, "gradient") {
            Some(BarStyle::Gradient)
        } else if chars_eq(s, "solid") {
            Some(BarStyle::Solid)
        } else if chars_eq(s, "thin") {
            Some(BarStyle::Thin)
        } else if chars_eq(s, "ascii") {
            Some(BarStyle::Ascii)
        } else {
            None
        }
    }

    /// The style that follows this one when cycling with the `b` key.
    pub fn next(self) -> (r: BarStyle)
        ensures
            r == bar_next(self),
    {
        match self {
            BarStyle::Gradient => BarStyle::Solid,
            BarStyle::Solid => BarStyle::Thin,
            BarStyle::Thin => BarStyle::Ascii,
            BarStyle::Ascii => BarStyle::Gradient,
        }
    }
}

/// A palette given as six 256-color indices.
#[derive(Clone, Copy, Debug, PartialEq, Eq, Structural)]
pub struct ThemeColors {
    pub blue: u8,
    pub green: u8,
    pub purple: u8,
    pub light_purple: u8,
    pub royal: u8,
    pub dark_purple: u8,
}

/// How byte counts are shown.
#[derive(Clone, Copy, Debug, PartialEq, Eq, Structural)]
pub enum UnitMode {
    Human,
    GiB,
    MiB,
    Bytes,
}

/// Spelling of a unit mode on the command line.
pub open spec fn unit_flag(u: UnitMode) -> Seq<char> {
    match u {
        UnitMode::Human => "human"@,
        UnitMode::GiB => "gib"@,
        UnitMode::MiB => "mib"@,
        UnitMode::Bytes => "bytes"@,
    }
}

/// The unit mode that follows `u` when cycling.
pub open spec fn unit_next(u: UnitMode) -> UnitMode {
    match u {
        UnitMode::Human => UnitMode::GiB,
        UnitMode::GiB => UnitMode::MiB,
        UnitMode::MiB => UnitMode::Bytes,
        UnitMode::Bytes => UnitMode::Human,
    }
}

impl Default for UnitMode {
    fn default() -> (r: UnitMode)
        ensures
            r == UnitMode::Human,
    {
        UnitMode::Human
    }
}

impl UnitMode {
    /// Every unit mode, in cycling order.
    pub const ALL: [UnitMode; 4] = [UnitMode::Human, UnitMode::GiB, UnitMode::MiB, UnitMode::Bytes];

    /// Spelling accepted by `--units`.
    pub fn flag(self) -> (r: &'static str)
        ensures
            r@ == unit_flag(self),
    {
        match self {
            UnitMode::Human => "human",
            UnitMode::GiB => "gib",
            UnitMode::MiB => "mib",
            UnitMode::Bytes => "bytes",
        }
    }

    /// The unit mode whose `--units` spelling is `s`, if any.
    pub fn from_flag(s: &[char]) -> (r: Option<UnitMode>)
        ensures
            r == unit_from(s@),
            r matches Some(m) ==> unit_flag(m) == s@,
            r is None ==> forall|m: UnitMode| unit_flag(m) != s@,
    {
        if chars_eq(s, "human") {
            Some(UnitMode::Human)
        } else if chars_eq(s, "gib") {
            Some(UnitMode::GiB)
        } else if chars_eq(s, "mib") {
            Some(UnitMode::MiB)
        } else if chars_eq(s, "bytes") {
            Some(UnitMode::Bytes)
        } else {
            None
        }
    }

    /// The mode that follows this one when cycling with the `i` key.
    pub fn next(self) -> (r: UnitMode)
        ensures
            r == unit_next(self),
    {
        match self {
            UnitMode::Human => UnitMode::GiB,
            UnitMode::GiB => UnitMode::MiB,
            UnitMode::MiB => UnitMode::Bytes,
            UnitMode::Bytes => UnitMode::Human,
        }
    }
}

/// Health reported for the device under a mount.
#[derive(Clone, Copy, Debug, PartialEq, Eq, Structural)]
pub enum SmartHealth {
    Verified,
    Failing,
    Unknown,
}

/// Kind of storage device behind a mount.
#[derive(Clone, Copy, Debug, PartialEq, Eq, Structural)]
pub enum DiskKind {
    HDD,
    SSD,
    Unknown(i64),
}

/// One mounted file system.
///
/// Usage percentage and the measured latency and rates are floating-point quantities
/// that the library only carries: each is held as the bit pattern of its `f64`
/// (`f64::to_bits`). The sorting code reads the percentage through `float_rank`.
#[derive(Debug)]
pub struct DiskEntry {
    pub mount: String,
    pub used: u64,
    pub total: u64,
    pub pct_bits: u64,
    pub kind: DiskKind,
    pub fs: String,
    pub latency_bits: Option<u64>,
    pub io_read_bits: Option<u64>,
    pub io_write_bits: Option<u64>,
    pub smart_status: Option<SmartHealth>,
}

impl Clone for DiskEntry {
    fn clone(&self) -> (r: DiskEntry)
        ensures
            r == *self,
    {
        DiskEntry {
            mount: self.mount.clone(),
            used: self.used,
            total: self.total,
            pct_bits: self.pct_bits,
            kind: self.kind,
            fs: self.fs.clone(),
            latency_bits: self.latency_bits,
            io_read_bits: self.io_read_bits,
            io_write_bits: self.io_write_bits,
            smart_status: self.smart_status,
        }
    }
}

/// Whether the bit pattern of an `f64` encodes a NaN: all exponent bits set and a
/// non-zero fraction.
pub open spec fn is_nan_bits(bits: u64) -> bool {
    bits % 0x8000_0000_0000_0000 > 0x7ff0_0000_0000_0000
}

/// The rank of the `f64` with the given bit pattern in numeric order. IEEE 754 orders
/// the non-NaN floats of one sign by their magnitude bits, so for two of them
/// `a < b` holds exactly when `float_rank(a) < float_rank(b)`; both zeros share one rank.
pub open spec fn float_rank(bits: u64) -> u64 {
    if bits >= 0x8000_0000_0000_0000 {
        (0x1_0000_0000_0000_0000 - bits) as u64
    } else {
        (bits + 0x8000_0000_0000_0000) as u64
    }
}

/// The rank of the `f64` with the given bit pattern (see `float_rank`).
pub fn float_rank_of(bits: u64) -> (r: u64)
    ensures
        r == float_rank(bits),
{
    if bits >= 0x8000_0000_0000_0000 {
        (0xffff_ffff_ffff_ffff - bits) + 1
    } else {
        bits + 0x8000_0000_0000_0000
    }
}

/// Order of the drill-down listing.
#[derive(Clone, Copy, Debug, PartialEq, Eq, Structural)]
pub enum DrillSortMode {
    Size,
    Name,
}

/// Part of the screen under the mouse.
#[derive(Clone, Copy, Debug, PartialEq, Eq, Structural)]
pub enum HoverZone {
    Outside,
    TitleBar,
    FooterBar,
    DiskRow(usize),
}

/// Which screen is shown.
#[derive(Clone, Copy, Debug, PartialEq, Eq, Structural)]
pub enum ViewMode {
    Disks,
    DrillDown,
}

/// One entry of a directory listing.
#[derive(Debug)]
pub struct DirEntry {
    pub path: String,
    pub name: String,
    pub size: u64,
    pub is_dir: bool,
}

impl Clone for DirEntry {
    fn clone(&self) -> (r: DirEntry)
        ensures
            r == *self,
    {
        DirEntry { path: self.path.clone(), name: self.name.clone(), size: self.size, is_dir: self.is_dir }
    }
}

/// The sort mode spelled `v` on the command line.
pub open spec fn sort_from(v: Seq<char>) -> Option<SortMode> {
    if v == "name"@ {
        Some(SortMode::Name)
    } else if v == "pct"@ {
        Some(SortMode::Pct)
    } else if v == "size"@ {
        Some(SortMode::Size)
    } else {
        None
    }
}

/// The bar style spelled `v` on the command line.
pub open spec fn bar_from(v: Seq<char>) -> Option<BarStyle> {
    if v == "gradient"@ {
        Some(BarStyle::Gradient)
    } else if v == "solid"@ {
        Some(BarStyle::Solid)
    } else if v == "thin"@ {
        Some(BarStyle::Thin)
    } else if v == "ascii"@ {
        Some(BarStyle::Ascii)
    } else {
        None
    }
}

/// The unit mode spelled `v` on the command line.
pub open spec fn unit_from(v: Seq<char>) -> Option<UnitMode> {
    if v == "human"@ {
        Some(UnitMode::Human)
    } else if v == "gib"@ {
        Some(UnitMode::GiB)
    } else if v == "mib"@ {
        Some(UnitMode::MiB)
    } else if v == "bytes"@ {
        Some(UnitMode::Bytes)
    } else {
        None
    }
}

/// The palette spelled `v` on the command line.
pub open spec fn color_from(v: Seq<char>) -> Option<ColorMode> {
    if v == "default"@ {
        Some(ColorMode::Default)
    } else if v == "green"@ {
        Some(ColorMode::Green)
    } else if v == "blue"@ {
        Some(ColorMode::Blue)
    } else if v == "purple"@ {
        Some(ColorMode::Purple)
    } else if v == "amber"@ {
        Some(ColorMode::Amber)
    } else if v == "cyan"@ {
        Some(ColorMode::Cyan)
    } else if v == "red"@ {
        Some(ColorMode::Red)
    } else if v == "sakura"@ {
        Some(ColorMode::Sakura)
    } else if v == "matrix"@ {
        Some(ColorMode::Matrix)
    } else if v == "sunset"@ {
        Some(ColorMode::Sunset)
    } else if v == "neon-noir"@ {
        Some(ColorMode::NeonNoir)
    } else if v == "chrome-heart"@ {
        Some(ColorMode::ChromeHeart)
    } else if v == "blade-runner"@ {
        Some(ColorMode::BladeRunner)
    } else if v == "void-walker"@ {
        Some(ColorMode::VoidWalker)
    } else if v == "toxic-waste"@ {
        Some(ColorMode::ToxicWaste)
    } else if v == "cyber-frost"@ {
        Some(ColorMode::CyberFrost)
    } else if v == "plasma-core"@ {
        Some(ColorMode::PlasmaCore)
    } else if v == "steel-nerve"@ {
        Some(ColorMode::SteelNerve)
    } else if v == "dark-signal"@ {
        Some(ColorMode::DarkSignal)
    } else if v == "glitch-pop"@ {
        Some(ColorMode::GlitchPop)
    } else if v == "holo-shift"@ {
        Some(ColorMode::HoloShift)
    } else if v == "night-city"@ {
        Some(ColorMode::NightCity)
    } else if v == "deep-net"@ {
        Some(ColorMode::DeepNet)
    } else if v == "laser-grid"@ {
        Some(ColorMode::LaserGrid)
    } else if v == "quantum-flux"@ {
        Some(ColorMode::QuantumFlux)
    } else if v == "bio-hazard"@ {
        Some(ColorMode::BioHazard)
    } else if v == "darkwave"@ {
        Some(ColorMode::Darkwave)
    } else if v == "overlock"@ {
        Some(ColorMode::Overlock)
    } else if v == "megacorp"@ {
        Some(ColorMode::Megacorp)
    } else if v == "zaibatsu"@ {
        Some(ColorMode::Zaibatsu)
    } else {
        None
    }
}


} // verus!
