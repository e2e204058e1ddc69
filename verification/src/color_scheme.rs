//! Selecting the active palette: a built-in preset or a custom palette.
use vstd::prelude::*;
use vstd::string::*;

use crate::palette::Palette;
use crate::presets::{preset_name, preset_stops, PresetPalettes, PRESET_COUNT};

verus! {

/// The active color scheme.
#[derive(Clone, Debug)]
pub enum ColorScheme {
    /// A built-in preset palette by index.
    Preset(usize),
    /// A user-defined palette.
    Custom(Palette),
}

/// The displayed name of a scheme: the preset's name, `"Unknown"` for an
/// index past the presets, or the custom palette's own name.
pub open spec fn scheme_name(s: ColorScheme) -> Seq<char> {
    match s {
        ColorScheme::Preset(i) => if i < PRESET_COUNT {
            preset_name(i as int)
        } else {
            "Unknown"@
        },
        ColorScheme::Custom(p) => p.name@,
    }
}

/// The preset index that follows a scheme: the next preset cyclically, and
/// the first preset after a custom palette.
pub open spec fn next_preset_index(s: ColorScheme) -> usize {
    match s {
        ColorScheme::Preset(i) => ((i + 1) % (PRESET_COUNT as int)) as usize,
        ColorScheme::Custom(_) => 0,
    }
}

/// The preset a scheme's palette comes from (preset 0 for an index past the presets).
pub open spec fn effective_preset(i: usize) -> int {
    if i < PRESET_COUNT {
        i as int
    } else {
        0
    }
}

impl ColorScheme {
    /// The human-readable name of the scheme.
    pub fn name(&self) -> (r: String)
        ensures
            r@ == scheme_name(*self),
    {
        match self {
            ColorScheme::Preset(idx) => {
                let presets = PresetPalettes::all();
                if *idx < presets.len() {
                    presets[*idx].name.clone()
                } else {
                    String::from_str("Unknown")
                }
            },
            ColorScheme::Custom(p) => p.name.clone(),
        }
    }

    /// Cycles to the next preset.
    pub fn next(&self) -> (r: ColorScheme)
        requires
            *self matches ColorScheme::Preset(i) ==> i < usize::MAX,
        ensures
            r == ColorScheme::Preset(next_preset_index(*self)),
    {
        let count = PresetPalettes::all().len();
        match self {
            ColorScheme::Preset(idx) => ColorScheme::Preset((*idx + 1) % count),
            ColorScheme::Custom(_) => ColorScheme::Preset(0),
        }
    }

    /// The palette of the scheme: a copy of the preset (the first preset for
    /// an index past the presets) or of the custom palette.
    pub fn get_palette(&self) -> (r: Palette)
        ensures
            *self matches ColorScheme::Preset(i) ==> r.name@ == preset_name(effective_preset(i))
                && r.stops@ == preset_stops(effective_preset(i)),
            *self matches ColorScheme::Custom(p) ==> r.name@ == p.name@ && r.stops@ == p.stops@,
    {
        match self {
            ColorScheme::Preset(idx) => {
                let presets = PresetPalettes::all();
                if *idx < presets.len() {
                    presets[*idx].clone()
                } else {
                    presets[0].clone()
                }
            },
            ColorScheme::Custom(p) => p.clone(),
        }
    }

    /// The preset index, if the scheme is a preset.
    pub fn preset_index(&self) -> (r: Option<usize>)
        ensures
            r == (match *self {
                ColorScheme::Preset(i) => Some(i),
                ColorScheme::Custom(_) => None::<usize>,
            }),
    {
        match self {
            ColorScheme::Preset(idx) => Some(*idx),
            ColorScheme::Custom(_) => None,
        }
    }
}

impl Default for ColorScheme {
    fn default() -> (r: Self)
        ensures
            r == ColorScheme::Preset(0),
    {
        ColorScheme::Preset(0)
    }
}

/// Two schemes are equal when both are the same preset; custom palettes
/// never compare equal, not even to themselves.
pub open spec fn schemes_equal(a: ColorScheme, b: ColorScheme) -> bool {
    match (a, b) {
        (ColorScheme::Preset(x), ColorScheme::Preset(y)) => x == y,
        _ => false,
    }
}

impl PartialEq for ColorScheme {
    fn eq(&self, other: &Self) -> (r: bool) {
        match (self, other) {
            (ColorScheme::Preset(a), ColorScheme::Preset(b)) => *a == *b,
            _ => false,
        }
    }
}

impl vstd::std_specs::cmp::PartialEqSpecImpl for ColorScheme {
    open spec fn obeys_eq_spec() -> bool {
        true
    }

    open spec fn eq_spec(&self, other: &ColorScheme) -> bool {
        schemes_equal(*self, *other)
    }
}

/// Scheme equality is symmetric and transitive, and reflexive on presets;
/// a custom palette equals nothing.
pub proof fn lemma_scheme_equality(a: ColorScheme, b: ColorScheme, c: ColorScheme)
    ensures
        schemes_equal(a, b) == schemes_equal(b, a),
        schemes_equal(a, b) && schemes_equal(b, c) ==> schemes_equal(a, c),
        a is Preset ==> schemes_equal(a, a),
        a is Custom ==> !schemes_equal(a, b) && !schemes_equal(b, a),
{
}

/// The scheme reached from `s` by `n` calls of `next`.
pub open spec fn next_iterated(s: ColorScheme, n: nat) -> ColorScheme
    decreases n,
{
    if n == 0 {
        s
    } else {
        ColorScheme::Preset(next_preset_index(next_iterated(s, (n - 1) as nat)))
    }
}

/// Cycling with `next` from a preset visits the presets in order: after `n`
/// steps it is at preset `(i + n) % PRESET_COUNT`.
pub proof fn lemma_next_iterated(i: usize, n: nat)
    requires
        i < PRESET_COUNT,
    ensures
        next_iterated(ColorScheme::Preset(i), n) == ColorScheme::Preset(
            ((i + n) % (PRESET_COUNT as int)) as usize,
        ),
    decreases n,
{
    if n > 0 {
        lemma_next_iterated(i, (n - 1) as nat);
        let m = PRESET_COUNT as int;
        vstd::arithmetic::div_mod::lemma_add_mod_noop(i + n - 1, 1, m);
        vstd::arithmetic::div_mod::lemma_small_mod(1, m as nat);
        vstd::arithmetic::div_mod::lemma_mod_twice(i + n - 1 + 1, m);
    }
}

/// After as many `next` steps as there are presets, a preset is back to itself.
pub proof fn lemma_next_cycles(i: usize)
    requires
        i < PRESET_COUNT,
    ensures
        next_iterated(ColorScheme::Preset(i), PRESET_COUNT as nat) == ColorScheme::Preset(i),
{
    lemma_next_iterated(i, PRESET_COUNT as nat);
    vstd::arithmetic::div_mod::lemma_mod_add_multiples_vanish(i as int, PRESET_COUNT as int);
    vstd::arithmetic::div_mod::lemma_small_mod(i as nat, PRESET_COUNT as nat);
}

} // verus!
