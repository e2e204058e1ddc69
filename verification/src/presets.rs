//! The built-in palettes.
//!
//! Every position and channel below is the bit pattern of a single-precision
//! value; the comment beside each stop gives the value itself.
use vstd::prelude::*;

use crate::float_bits::{f32_le, f32_lt, F32_ONE, F32_ZERO};
use crate::palette::{lemma_sorted_stops_of_ordered, stops_ordered, ColorStop, Palette};

verus! {

/// Number of built-in palettes.
pub const PRESET_COUNT: usize = 7;

/// A stop in spec form.
pub open spec fn stop_at(position: u32, r: u32, g: u32, b: u32) -> ColorStop {
    ColorStop { position, color: [r, g, b] }
}

/// Name of built-in palette `i`.
pub open spec fn preset_name(i: int) -> Seq<char> {
    if i == 0 {
        "Smooth Rainbow"@
    } else if i == 1 {
        "Fire"@
    } else if i == 2 {
        "Ocean"@
    } else if i == 3 {
        "Grayscale"@
    } else if i == 4 {
        "Electric"@
    } else if i == 5 {
        "Copper"@
    } else {
        "Nebula"@
    }
}

/// Stops of built-in palette `i`, in order of position.
pub open spec fn preset_stops(i: int) -> Seq<ColorStop> {
    if i == 0 {
        seq![
            stop_at(0x00000000, 0x3f666666, 0x3e3851ec, 0x3e3851ec),  // 0.0: (0.9, 0.18, 0.18)
            stop_at(0x3e2b020c, 0x3f666666, 0x3f666666, 0x3e3851ec),  // 0.167: (0.9, 0.9, 0.18)
            stop_at(0x3eaa7efa, 0x3e3851ec, 0x3f666666, 0x3e3851ec),  // 0.333: (0.18, 0.9, 0.18)
            stop_at(0x3f000000, 0x3e3851ec, 0x3f666666, 0x3f666666),  // 0.5: (0.18, 0.9, 0.9)
            stop_at(0x3f2ac083, 0x3e3851ec, 0x3e3851ec, 0x3f666666),  // 0.667: (0.18, 0.18, 0.9)
            stop_at(0x3f553f7d, 0x3f666666, 0x3e3851ec, 0x3f666666),  // 0.833: (0.9, 0.18, 0.9)
            stop_at(0x3f800000, 0x3f666666, 0x3e3851ec, 0x3e3851ec),  // 1.0: (0.9, 0.18, 0.18)
        ]
    } else if i == 1 {
        seq![
            stop_at(0x00000000, 0x00000000, 0x00000000, 0x00000000),  // 0.0: (0.0, 0.0, 0.0)
            stop_at(0x3e19999a, 0x3e99999a, 0x00000000, 0x00000000),  // 0.15: (0.3, 0.0, 0.0)
            stop_at(0x3e99999a, 0x3f19999a, 0x00000000, 0x00000000),  // 0.3: (0.6, 0.0, 0.0)
            stop_at(0x3f000000, 0x3f800000, 0x3f000000, 0x00000000),  // 0.5: (1.0, 0.5, 0.0)
            stop_at(0x3f333333, 0x3f800000, 0x3f800000, 0x00000000),  // 0.7: (1.0, 1.0, 0.0)
            stop_at(0x3f800000, 0x3f800000, 0x3f800000, 0x3f800000),  // 1.0: (1.0, 1.0, 1.0)
        ]
    } else if i == 2 {
        seq![
            stop_at(0x00000000, 0x00000000, 0x00000000, 0x3e99999a),  // 0.0: (0.0, 0.0, 0.3)
            stop_at(0x3e4ccccd, 0x00000000, 0x00000000, 0x3ee147ae),  // 0.2: (0.0, 0.0, 0.44)
            stop_at(0x3ecccccd, 0x00000000, 0x3eb851ec, 0x3f147ae1),  // 0.4: (0.0, 0.36, 0.58)
            stop_at(0x3f19999a, 0x00000000, 0x3f3851ec, 0x3f3851ec),  // 0.6: (0.0, 0.72, 0.72)
            stop_at(0x3f4ccccd, 0x3f000000, 0x3f800000, 0x3f5c28f6),  // 0.8: (0.5, 1.0, 0.86)
            stop_at(0x3f800000, 0x3f800000, 0x3f800000, 0x3f800000),  // 1.0: (1.0, 1.0, 1.0)
        ]
    } else if i == 3 {
        seq![
            stop_at(0x00000000, 0x00000000, 0x00000000, 0x00000000),  // 0.0: (0.0, 0.0, 0.0)
            stop_at(0x3f800000, 0x3f800000, 0x3f800000, 0x3f800000),  // 1.0: (1.0, 1.0, 1.0)
        ]
    } else if i == 4 {
        seq![
            stop_at(0x00000000, 0x00000000, 0x00000000, 0x3dcccccd),  // 0.0: (0.0, 0.0, 0.1)
            stop_at(0x3e800000, 0x3dcccccd, 0x00000000, 0x3f4ccccd),  // 0.25: (0.1, 0.0, 0.8)
            stop_at(0x3f000000, 0x00000000, 0x3f4ccccd, 0x3f800000),  // 0.5: (0.0, 0.8, 1.0)
            stop_at(0x3f400000, 0x3f800000, 0x3f800000, 0x3e4ccccd),  // 0.75: (1.0, 1.0, 0.2)
            stop_at(0x3f800000, 0x3f800000, 0x3f800000, 0x3f800000),  // 1.0: (1.0, 1.0, 1.0)
        ]
    } else if i == 5 {
        seq![
            stop_at(0x00000000, 0x00000000, 0x00000000, 0x00000000),  // 0.0: (0.0, 0.0, 0.0)
            stop_at(0x3e99999a, 0x3ecccccd, 0x3e4ccccd, 0x3d4ccccd),  // 0.3: (0.4, 0.2, 0.05)
            stop_at(0x3f19999a, 0x3f4ccccd, 0x3f000000, 0x3e4ccccd),  // 0.6: (0.8, 0.5, 0.2)
            stop_at(0x3f59999a, 0x3f800000, 0x3f4ccccd, 0x3f000000),  // 0.85: (1.0, 0.8, 0.5)
            stop_at(0x3f800000, 0x3f800000, 0x3f733333, 0x3f4ccccd),  // 1.0: (1.0, 0.95, 0.8)
        ]
    } else {
        seq![
            stop_at(0x00000000, 0x00000000, 0x00000000, 0x00000000),  // 0.0: (0.0, 0.0, 0.0)
            stop_at(0x3dcccccd, 0x3f0147ae, 0x3df5c28f, 0x3d810625),  // 0.1: (0.505, 0.12, 0.063)
            stop_at(0x3e800000, 0x3f181062, 0x3e676c8b, 0x3e3645a2),  // 0.25: (0.594, 0.226, 0.178)
            stop_at(0x3f000000, 0x3f322d0e, 0x3ebd70a4, 0x3edeb852),  // 0.5: (0.696, 0.37, 0.435)
            stop_at(0x3f400000, 0x3f41cac1, 0x3f000000, 0x3f34bc6a),  // 0.75: (0.757, 0.5, 0.706)
            stop_at(0x3f800000, 0x3f4ccccd, 0x3f19999a, 0x3f800000),  // 1.0: (0.8, 0.6, 1.0)
        ]
    }
}

/// The built-in palettes.
pub struct PresetPalettes;

impl PresetPalettes {
    /// All built-in palettes; indices 0 to 3 are the smooth, fire, ocean and
    /// grayscale schemes the shaders once had hard-coded.
    pub fn all() -> (r: Vec<Palette>)
        ensures
            r@.len() == PRESET_COUNT,
            forall|i: int|
                0 <= i < PRESET_COUNT ==> #[trigger] r@[i].name@ == preset_name(i)
                    && r@[i].stops@ == preset_stops(i),
    {
        let mut r: Vec<Palette> = Vec::new();
        r.push(Self::smooth_rainbow());
        r.push(Self::fire());
        r.push(Self::ocean());
        r.push(Self::grayscale());
        r.push(Self::electric());
        r.push(Self::copper());
        r.push(Self::nebula());
        r
    }

    /// Preset 0, Smooth Rainbow: HSV rainbow (saturation 0.8, value 0.9) sampled at the primary and secondary hues.
    fn smooth_rainbow() -> (p: Palette)
        ensures
            p.name@ == preset_name(0),
            p.stops@ == preset_stops(0),
    {
        let stops = vec![
            ColorStop { position: 0x00000000, color: [0x3f666666, 0x3e3851ec, 0x3e3851ec] },
            ColorStop { position: 0x3e2b020c, color: [0x3f666666, 0x3f666666, 0x3e3851ec] },
            ColorStop { position: 0x3eaa7efa, color: [0x3e3851ec, 0x3f666666, 0x3e3851ec] },
            ColorStop { position: 0x3f000000, color: [0x3e3851ec, 0x3f666666, 0x3f666666] },
            ColorStop { position: 0x3f2ac083, color: [0x3e3851ec, 0x3e3851ec, 0x3f666666] },
            ColorStop { position: 0x3f553f7d, color: [0x3f666666, 0x3e3851ec, 0x3f666666] },
            ColorStop { position: 0x3f800000, color: [0x3f666666, 0x3e3851ec, 0x3e3851ec] },
        ];
        proof {
            assert(stops@ =~= preset_stops(0));
            assert(stops_ordered(preset_stops(0)));
            lemma_sorted_stops_of_ordered(preset_stops(0));
        }
        Palette::new("Smooth Rainbow", stops)
    }

    /// Preset 1, Fire: Black through dark red, orange and yellow to white.
    fn fire() -> (p: Palette)
        ensures
            p.name@ == preset_name(1),
            p.stops@ == preset_stops(1),
    {
        let stops = vec![
            ColorStop { position: 0x00000000, color: [0x00000000, 0x00000000, 0x00000000] },
            ColorStop { position: 0x3e19999a, color: [0x3e99999a, 0x00000000, 0x00000000] },
            ColorStop { position: 0x3e99999a, color: [0x3f19999a, 0x00000000, 0x00000000] },
            ColorStop { position: 0x3f000000, color: [0x3f800000, 0x3f000000, 0x00000000] },
            ColorStop { position: 0x3f333333, color: [0x3f800000, 0x3f800000, 0x00000000] },
            ColorStop { position: 0x3f800000, color: [0x3f800000, 0x3f800000, 0x3f800000] },
        ];
        proof {
            assert(stops@ =~= preset_stops(1));
            assert(stops_ordered(preset_stops(1)));
            lemma_sorted_stops_of_ordered(preset_stops(1));
        }
        Palette::new("Fire", stops)
    }

    /// Preset 2, Ocean: Deep blue through teal to white.
    fn ocean() -> (p: Palette)
        ensures
            p.name@ == preset_name(2),
            p.stops@ == preset_stops(2),
    {
        let stops = vec![
            ColorStop { position: 0x00000000, color: [0x00000000, 0x00000000, 0x3e99999a] },
            ColorStop { position: 0x3e4ccccd, color: [0x00000000, 0x00000000, 0x3ee147ae] },
            ColorStop { position: 0x3ecccccd, color: [0x00000000, 0x3eb851ec, 0x3f147ae1] },
            ColorStop { position: 0x3f19999a, color: [0x00000000, 0x3f3851ec, 0x3f3851ec] },
            ColorStop { position: 0x3f4ccccd, color: [0x3f000000, 0x3f800000, 0x3f5c28f6] },
            ColorStop { position: 0x3f800000, color: [0x3f800000, 0x3f800000, 0x3f800000] },
        ];
        proof {
            assert(stops@ =~= preset_stops(2));
            assert(stops_ordered(preset_stops(2)));
            lemma_sorted_stops_of_ordered(preset_stops(2));
        }
        Palette::new("Ocean", stops)
    }

    /// Preset 3, Grayscale: Black to white.
    fn grayscale() -> (p: Palette)
        ensures
            p.name@ == preset_name(3),
            p.stops@ == preset_stops(3),
    {
        let stops = vec![
            ColorStop { position: 0x00000000, color: [0x00000000, 0x00000000, 0x00000000] },
            ColorStop { position: 0x3f800000, color: [0x3f800000, 0x3f800000, 0x3f800000] },
        ];
        proof {
            assert(stops@ =~= preset_stops(3));
            assert(stops_ordered(preset_stops(3)));
            lemma_sorted_stops_of_ordered(preset_stops(3));
        }
        Palette::new("Grayscale", stops)
    }

    /// Preset 4, Electric: Near-black blue through violet and cyan to yellow and white.
    fn electric() -> (p: Palette)
        ensures
            p.name@ == preset_name(4),
            p.stops@ == preset_stops(4),
    {
        let stops = vec![
            ColorStop { position: 0x00000000, color: [0x00000000, 0x00000000, 0x3dcccccd] },
            ColorStop { position: 0x3e800000, color: [0x3dcccccd, 0x00000000, 0x3f4ccccd] },
            ColorStop { position: 0x3f000000, color: [0x00000000, 0x3f4ccccd, 0x3f800000] },
            ColorStop { position: 0x3f400000, color: [0x3f800000, 0x3f800000, 0x3e4ccccd] },
            ColorStop { position: 0x3f800000, color: [0x3f800000, 0x3f800000, 0x3f800000] },
        ];
        proof {
            assert(stops@ =~= preset_stops(4));
            assert(stops_ordered(preset_stops(4)));
            lemma_sorted_stops_of_ordered(preset_stops(4));
        }
        Palette::new("Electric", stops)
    }

    /// Preset 5, Copper: Black through browns to pale copper.
    fn copper() -> (p: Palette)
        ensures
            p.name@ == preset_name(5),
            p.stops@ == preset_stops(5),
    {
        let stops = vec![
            ColorStop { position: 0x00000000, color: [0x00000000, 0x00000000, 0x00000000] },
            ColorStop { position: 0x3e99999a, color: [0x3ecccccd, 0x3e4ccccd, 0x3d4ccccd] },
            ColorStop { position: 0x3f19999a, color: [0x3f4ccccd, 0x3f000000, 0x3e4ccccd] },
            ColorStop { position: 0x3f59999a, color: [0x3f800000, 0x3f4ccccd, 0x3f000000] },
            ColorStop { position: 0x3f800000, color: [0x3f800000, 0x3f733333, 0x3f4ccccd] },
        ];
        proof {
            assert(stops@ =~= preset_stops(5));
            assert(stops_ordered(preset_stops(5)));
            lemma_sorted_stops_of_ordered(preset_stops(5));
        }
        Palette::new("Copper", stops)
    }

    /// Preset 6, Nebula: Tuned for density maps: red, green and blue follow the curves n^0.4 * 0.8, n^0.7 * 0.6 and n^1.2.
    fn nebula() -> (p: Palette)
        ensures
            p.name@ == preset_name(6),
            p.stops@ == preset_stops(6),
    {
        let stops = vec![
            ColorStop { position: 0x00000000, color: [0x00000000, 0x00000000, 0x00000000] },
            ColorStop { position: 0x3dcccccd, color: [0x3f0147ae, 0x3df5c28f, 0x3d810625] },
            ColorStop { position: 0x3e800000, color: [0x3f181062, 0x3e676c8b, 0x3e3645a2] },
            ColorStop { position: 0x3f000000, color: [0x3f322d0e, 0x3ebd70a4, 0x3edeb852] },
            ColorStop { position: 0x3f400000, color: [0x3f41cac1, 0x3f000000, 0x3f34bc6a] },
            ColorStop { position: 0x3f800000, color: [0x3f4ccccd, 0x3f19999a, 0x3f800000] },
        ];
        proof {
            assert(stops@ =~= preset_stops(6));
            assert(stops_ordered(preset_stops(6)));
            lemma_sorted_stops_of_ordered(preset_stops(6));
        }
        Palette::new("Nebula", stops)
    }

}

/// Each channel of each stop is a number in `[0, 1]`.
pub open spec fn channels_in_unit_range(s: Seq<ColorStop>) -> bool {
    forall|j: int, k: int|
        0 <= j < s.len() && 0 <= k < 3 ==> f32_le(F32_ZERO, #[trigger] s[j].color[k]) && f32_le(
            s[j].color[k],
            F32_ONE,
        )
}

/// Positions run from `0.0` to `1.0`, strictly increasing.
pub open spec fn spans_unit_interval(s: Seq<ColorStop>) -> bool {
    &&& s.len() >= 2
    &&& s[0].position == F32_ZERO
    &&& s.last().position == F32_ONE
    &&& forall|j: int| 0 <= j < s.len() - 1 ==> f32_lt(#[trigger] s[j].position, s[j + 1].position)
}

/// No channel gets darker from one stop to the next.
pub open spec fn channels_rise(s: Seq<ColorStop>) -> bool {
    forall|j: int, k: int|
        0 <= j < s.len() - 1 && 0 <= k < 3 ==> f32_le(#[trigger] s[j].color[k], s[j + 1].color[k])
}

/// Every built-in palette spans `[0, 1]` with strictly increasing positions
/// and colors whose channels lie in `[0, 1]`.
pub proof fn lemma_presets_well_formed(i: int)
    requires
        0 <= i < PRESET_COUNT,
    ensures
        spans_unit_interval(preset_stops(i)),
        channels_in_unit_range(preset_stops(i)),
{
    let s = preset_stops(i);
    assert forall|j: int| 0 <= j < s.len() - 1 implies f32_lt(#[trigger] s[j].position, s[j + 1].position) by {}
    assert forall|j: int, k: int| 0 <= j < s.len() && 0 <= k < 3 implies f32_le(F32_ZERO, #[trigger] s[j].color[k]) && f32_le(s[j].color[k], F32_ONE) by {}
}

/// Fire (black to white through red and yellow), Ocean (deep blue through
/// teal to white), Grayscale, Copper and Nebula brighten steadily: no
/// channel decreases along the gradient.
pub proof fn lemma_presets_brighten(i: int)
    requires
        i == 1 || i == 2 || i == 3 || i == 5 || i == 6,
    ensures
        channels_rise(preset_stops(i)),
        preset_stops(i)[0].color == [F32_ZERO, F32_ZERO, preset_stops(i)[0].color[2]],
{
    let s = preset_stops(i);
    assert forall|j: int, k: int| 0 <= j < s.len() - 1 && 0 <= k < 3 implies f32_le(#[trigger] s[j].color[k], s[j + 1].color[k]) by {}
}

/// The rainbow wraps around: its last color is its first.
pub proof fn lemma_rainbow_wraps()
    ensures
        preset_stops(0).last().color == preset_stops(0)[0].color,
{
}

} // verus!
