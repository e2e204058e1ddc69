//! State of the palette editor window: the palette being edited, which
//! stop is selected, and whether the window is open.
use vstd::prelude::*;
use vstd::string::*;

use crate::color_scheme::{effective_preset, ColorScheme};
use crate::palette::{
    clamped_stop, sorted_stops, stops_sortable, ColorStop, Palette,
};
use crate::presets::{preset_name, preset_stops, PresetPalettes, PRESET_COUNT};

verus! {

/// The palette editor.
pub struct PaletteEditor {
    is_open: bool,
    editing_palette: Palette,
    selected_stop: Option<usize>,
}

/// The selection after the stops shrink to `len`: a selection past the end
/// moves to the last stop.
pub open spec fn selection_after_removal(sel: Option<usize>, len: nat) -> Option<usize> {
    match sel {
        Some(s) => if s >= len {
            Some((len - 1) as usize)
        } else {
            Some(s)
        },
        None => None,
    }
}

impl PaletteEditor {
    /// The window is open.
    pub closed spec fn shown(self) -> bool {
        self.is_open
    }

    /// The palette being edited.
    pub closed spec fn editing(self) -> Palette {
        self.editing_palette
    }

    /// The selected stop.
    pub closed spec fn selection(self) -> Option<usize> {
        self.selected_stop
    }

    /// A closed editor holding the first preset, with nothing selected.
    pub fn new() -> (e: PaletteEditor)
        ensures
            !e.shown(),
            e.editing().name@ == preset_name(0),
            e.editing().stops@ == preset_stops(0),
            e.selection() is None,
    {
        let presets = PresetPalettes::all();
        PaletteEditor { is_open: false, editing_palette: presets[0].clone(), selected_stop: None }
    }

    /// Opens the editor on a copy of the scheme's palette, named `"Custom"`,
    /// with its first stop selected (nothing when it has no stops).
    pub fn open(&mut self, current: &ColorScheme)
        ensures
            final(self).shown(),
            final(self).editing().name@ == "Custom"@,
            *current matches ColorScheme::Preset(i) ==> final(self).editing().stops@
                == preset_stops(effective_preset(i)),
            *current matches ColorScheme::Custom(p) ==> final(self).editing().stops@ == p.stops@,
            final(self).selection() == (if final(self).editing().stops@.len() == 0 {
                None
            } else {
                Some(0usize)
            }),
    {
        self.editing_palette = current.get_palette();
        self.editing_palette.name = String::from_str("Custom");
        self.selected_stop = if self.editing_palette.stops.len() == 0 {
            None
        } else {
            Some(0)
        };
        self.is_open = true;
    }

    /// Whether the window is open.
    pub fn is_open(&self) -> (r: bool)
        ensures
            r == self.shown(),
    {
        self.is_open
    }

    /// Opens or closes the window.
    pub fn set_open(&mut self, open: bool)
        ensures
            final(self).shown() == open,
            final(self).editing() == old(self).editing(),
            final(self).selection() == old(self).selection(),
    {
        self.is_open = open;
    }

    /// The palette being edited.
    pub fn editing_palette(&self) -> (p: &Palette)
        ensures
            *p == self.editing(),
    {
        &self.editing_palette
    }

    /// The selected stop.
    pub fn selected_stop(&self) -> (r: Option<usize>)
        ensures
            r == self.selection(),
    {
        self.selected_stop
    }

    /// Selects a stop.
    pub fn select_stop(&mut self, index: usize)
        ensures
            final(self).selection() == Some(index),
            final(self).shown() == old(self).shown(),
            final(self).editing() == old(self).editing(),
    {
        self.selected_stop = Some(index);
    }

    /// Replaces the edited palette by a copy of preset `index`, named
    /// `"Custom"`, and selects its first stop.
    pub fn load_preset(&mut self, index: usize)
        requires
            index < PRESET_COUNT,
        ensures
            final(self).editing().name@ == "Custom"@,
            final(self).editing().stops@ == preset_stops(index as int),
            final(self).selection() == Some(0usize),
            final(self).shown() == old(self).shown(),
    {
        let presets = PresetPalettes::all();
        self.editing_palette = presets[index].clone();
        self.editing_palette.name = String::from_str("Custom");
        self.selected_stop = Some(0);
    }

    /// Sets the position of a stop, leaving the order of the stops as it is
    /// until the palette is applied.
    pub fn set_stop_position(&mut self, index: usize, position: u32)
        requires
            index < old(self).editing().stops@.len(),
        ensures
            final(self).editing().stops@ == old(self).editing().stops@.update(
                index as int,
                ColorStop { position, color: old(self).editing().stops@[index as int].color },
            ),
            final(self).editing().name@ == old(self).editing().name@,
            final(self).selection() == old(self).selection(),
            final(self).shown() == old(self).shown(),
    {
        let color = self.editing_palette.stops[index].color;
        self.editing_palette.stops.set(index, ColorStop { position, color });
    }

    /// Sets the color of a stop.
    pub fn set_stop_color(&mut self, index: usize, color: [u32; 3])
        requires
            index < old(self).editing().stops@.len(),
        ensures
            final(self).editing().stops@ == old(self).editing().stops@.update(
                index as int,
                ColorStop { position: old(self).editing().stops@[index as int].position, color },
            ),
            final(self).editing().name@ == old(self).editing().name@,
            final(self).selection() == old(self).selection(),
            final(self).shown() == old(self).shown(),
    {
        let position = self.editing_palette.stops[index].position;
        self.editing_palette.stops.set(index, ColorStop { position, color });
    }

    /// Adds a stop at `position` (clamped to `[0, 1]`); the stops are re-sorted.
    pub fn add_stop(&mut self, position: u32, color: [u32; 3])
        requires
            stops_sortable(old(self).editing().stops@.push(clamped_stop(position, color))),
        ensures
            final(self).editing().stops@ == sorted_stops(
                old(self).editing().stops@.push(clamped_stop(position, color)),
            ),
            final(self).editing().name@ == old(self).editing().name@,
            final(self).selection() == old(self).selection(),
            final(self).shown() == old(self).shown(),
    {
        self.editing_palette.add_stop(position, color);
    }

    /// Removes a stop (a palette keeps at least two) and moves a selection
    /// that now lies past the end onto the last stop.
    pub fn remove_stop(&mut self, index: usize)
        requires
            old(self).selection() is Some ==> old(self).editing().stops@.len() > 0,
        ensures
            ({
                let old_stops = old(self).editing().stops@;
                let removed = old_stops.len() > 2 && index < old_stops.len();
                &&& final(self).editing().stops@ == (if removed {
                    old_stops.remove(index as int)
                } else {
                    old_stops
                })
                &&& final(self).selection() == selection_after_removal(
                    old(self).selection(),
                    final(self).editing().stops@.len(),
                )
            }),
            final(self).editing().name@ == old(self).editing().name@,
            final(self).shown() == old(self).shown(),
            final(self).editing().stops@.len() >= 2 || final(self).editing().stops@.len()
                == old(self).editing().stops@.len(),
    {
        self.editing_palette.remove_stop(index);
        if let Some(sel) = self.selected_stop {
            if sel >= self.editing_palette.stops.len() {
                self.selected_stop = Some(self.editing_palette.stops.len() - 1);
            }
        }
    }

    /// Sorts the edited stops by position and returns a copy of the palette.
    pub fn apply(&mut self) -> (p: Palette)
        requires
            stops_sortable(old(self).editing().stops@),
        ensures
            final(self).editing().stops@ == sorted_stops(old(self).editing().stops@),
            final(self).editing().name@ == old(self).editing().name@,
            final(self).selection() == old(self).selection(),
            final(self).shown() == old(self).shown(),
            p.name@ == final(self).editing().name@,
            p.stops@ == final(self).editing().stops@,
    {
        crate::palette::sort_stops(&mut self.editing_palette.stops);
        self.editing_palette.clone()
    }
}

} // verus!
