use fractal_explorer::color_scheme::ColorScheme;
use fractal_explorer::float_bits::{clamp_unit, f32_less, f32_less_eq, F32_ONE, F32_ZERO};
use fractal_explorer::palette::{ColorStop, GradientSample, Palette};
use fractal_explorer::palette_editor::PaletteEditor;
use fractal_explorer::presets::{PresetPalettes, PRESET_COUNT};

fn b(x: f32) -> u32 {
    x.to_bits()
}

fn stop(p: f32, c: [f32; 3]) -> ColorStop {
    ColorStop { position: b(p), color: [b(c[0]), b(c[1]), b(c[2])] }
}

fn positions(p: &Palette) -> Vec<f32> {
    p.stops.iter().map(|s| f32::from_bits(s.position)).collect()
}

#[test]
fn bit_comparisons_agree_with_floats() {
    let values = [
        0.0f32, -0.0, 1.0, -1.0, 0.5, -0.5, 1e-30, -1e-30, 3.4e38, -3.4e38,
        f32::INFINITY, f32::NEG_INFINITY, f32::NAN, -f32::NAN, f32::MIN_POSITIVE, 2.0, 0.999,
    ];
    for &x in &values {
        for &y in &values {
            assert_eq!(f32_less(b(x), b(y)), x < y, "{} < {}", x, y);
            assert_eq!(f32_less_eq(b(x), b(y)), x <= y, "{} <= {}", x, y);
        }
    }
}

#[test]
fn clamping_to_the_unit_interval() {
    for &x in &[-2.0f32, -0.0, 0.0, 0.25, 1.0, 1.5, f32::INFINITY, f32::NEG_INFINITY, 1e-40] {
        assert_eq!(clamp_unit(b(x)), b(x.clamp(0.0, 1.0)), "{}", x);
    }
    assert_eq!(clamp_unit(b(-3.0)), F32_ZERO);
    assert_eq!(clamp_unit(b(7.0)), F32_ONE);
    assert!(f32::from_bits(clamp_unit(b(f32::NAN))).is_nan());
}

#[test]
fn new_palette_sorts_stops_stably() {
    let p = Palette::new(
        "Test",
        vec![
            stop(0.5, [1.0, 0.0, 0.0]),
            stop(0.0, [0.0, 1.0, 0.0]),
            stop(0.5, [0.0, 0.0, 1.0]),
            stop(1.0, [1.0, 1.0, 1.0]),
        ],
    );
    assert_eq!(p.name, "Test");
    assert_eq!(positions(&p), vec![0.0, 0.5, 0.5, 1.0]);
    assert_eq!(p.stops[1].color[0], b(1.0));
    assert_eq!(p.stops[2].color[2], b(1.0));
}

#[test]
fn negative_zero_and_zero_keep_their_order() {
    let p = Palette::new("z", vec![stop(0.0, [1.0, 0.0, 0.0]), stop(-0.0, [0.0, 1.0, 0.0])]);
    assert_eq!(p.stops[0].position, b(0.0));
    assert_eq!(p.stops[1].position, b(-0.0));
}

#[test]
fn sampling_picks_the_stops_around_t() {
    let p = Palette::new(
        "Three",
        vec![stop(0.2, [0.0; 3]), stop(0.5, [0.5; 3]), stop(0.8, [1.0; 3])],
    );
    assert_eq!(p.sample_source(b(0.0)), GradientSample::Stop(0));
    assert_eq!(p.sample_source(b(0.2)), GradientSample::Stop(0));
    assert_eq!(p.sample_source(b(0.3)), GradientSample::Between(0));
    assert_eq!(p.sample_source(b(0.5)), GradientSample::Between(0));
    assert_eq!(p.sample_source(b(0.6)), GradientSample::Between(1));
    assert_eq!(p.sample_source(b(0.8)), GradientSample::Stop(2));
    assert_eq!(p.sample_source(b(5.0)), GradientSample::Stop(2));
    assert_eq!(p.sample_source(b(-5.0)), GradientSample::Stop(0));
    assert_eq!(p.sample_source(b(f32::NAN)), GradientSample::Stop(2));
}

#[test]
fn sampling_small_palettes() {
    let empty = Palette::new("e", vec![]);
    assert_eq!(empty.sample_source(b(0.5)), GradientSample::Black);
    let one = Palette::new("o", vec![stop(0.7, [0.1, 0.2, 0.3])]);
    assert_eq!(one.sample_source(b(0.1)), GradientSample::Stop(0));
}

#[test]
fn sampling_an_unsorted_palette_scans_in_order() {
    let mut p = Palette::new("u", vec![stop(0.0, [0.0; 3]), stop(0.4, [0.0; 3]), stop(1.0, [0.0; 3])]);
    // Edit a position directly, as the editor's slider does.
    p.stops[1].position = b(0.9);
    assert_eq!(p.sample_source(b(0.5)), GradientSample::Between(0));
    p.stops[1].position = b(0.1);
    assert_eq!(p.sample_source(b(0.5)), GradientSample::Between(1));
}

#[test]
fn add_stop_clamps_and_sorts() {
    let mut p = Palette::new("g", vec![stop(0.0, [0.0; 3]), stop(1.0, [1.0; 3])]);
    p.add_stop(b(0.25), [b(0.3); 3]);
    assert_eq!(positions(&p), vec![0.0, 0.25, 1.0]);
    p.add_stop(b(2.0), [b(0.9); 3]);
    assert_eq!(positions(&p), vec![0.0, 0.25, 1.0, 1.0]);
    assert_eq!(p.stops[3].color[0], b(0.9));
    p.add_stop(b(-1.0), [b(0.5); 3]);
    assert_eq!(positions(&p), vec![0.0, 0.0, 0.25, 1.0, 1.0]);
    assert_eq!(p.stops[1].color[0], b(0.5));
}

#[test]
fn remove_stop_keeps_two() {
    let mut p = Palette::new("r", vec![stop(0.0, [0.0; 3]), stop(0.5, [0.5; 3]), stop(1.0, [1.0; 3])]);
    assert!(!p.remove_stop(3));
    assert_eq!(p.stops.len(), 3);
    assert!(p.remove_stop(1));
    assert_eq!(positions(&p), vec![0.0, 1.0]);
    assert!(!p.remove_stop(0));
    assert_eq!(p.stops.len(), 2);
}

#[test]
fn move_stop_reorders() {
    let mut p = Palette::new("m", vec![stop(0.0, [0.0; 3]), stop(0.5, [0.5; 3]), stop(1.0, [1.0; 3])]);
    p.move_stop(0, b(0.75));
    assert_eq!(positions(&p), vec![0.5, 0.75, 1.0]);
    assert_eq!(p.stops[1].color[0], b(0.0));
    p.move_stop(2, b(-3.0));
    assert_eq!(positions(&p), vec![0.0, 0.5, 0.75]);
    p.move_stop(9, b(0.1));
    assert_eq!(positions(&p), vec![0.0, 0.5, 0.75]);
}

#[test]
fn clone_copies_name_and_stops() {
    let p = Palette::new("c", vec![stop(0.0, [0.1, 0.2, 0.3]), stop(1.0, [0.4, 0.5, 0.6])]);
    let q = p.clone();
    assert_eq!(q.name, "c");
    assert_eq!(q.stops.len(), 2);
    assert_eq!(q.stops[1].color, p.stops[1].color);
}

#[test]
fn presets_match_the_old_shader_schemes() {
    let all = PresetPalettes::all();
    assert_eq!(all.len(), PRESET_COUNT);
    let names: Vec<&str> = all.iter().map(|p| p.name.as_str()).collect();
    assert_eq!(
        names,
        vec!["Smooth Rainbow", "Fire", "Ocean", "Grayscale", "Electric", "Copper", "Nebula"]
    );
    for p in &all {
        let pos = positions(p);
        assert_eq!(pos[0], 0.0);
        assert_eq!(*pos.last().unwrap(), 1.0);
        assert!(pos.windows(2).all(|w| w[0] <= w[1]));
    }
    assert_eq!(positions(&all[3]), vec![0.0, 1.0]);
    assert_eq!(all[0].stops[0].color, [b(0.9), b(0.18), b(0.18)]);
    assert_eq!(all[1].stops[3].color, [b(1.0), b(0.5), b(0.0)]);
    assert_eq!(all[6].stops[1].color, [b(0.505), b(0.12), b(0.063)]);
    assert_eq!(positions(&all[0]), vec![0.0, 0.167, 0.333, 0.5, 0.667, 0.833, 1.0]);
}

#[test]
fn color_scheme_names() {
    assert_eq!(ColorScheme::Preset(0).name(), "Smooth Rainbow");
    assert_eq!(ColorScheme::Preset(6).name(), "Nebula");
    assert_eq!(ColorScheme::Preset(7).name(), "Unknown");
    let custom = ColorScheme::Custom(Palette::new("Mine", vec![]));
    assert_eq!(custom.name(), "Mine");
}

#[test]
fn color_scheme_next_cycles() {
    assert!(ColorScheme::Preset(0).next() == ColorScheme::Preset(1));
    assert!(ColorScheme::Preset(6).next() == ColorScheme::Preset(0));
    assert!(ColorScheme::Preset(20).next() == ColorScheme::Preset(0));
    let custom = ColorScheme::Custom(Palette::new("Mine", vec![]));
    assert!(custom.next() == ColorScheme::Preset(0));
    for start in 0..PRESET_COUNT {
        let mut s = ColorScheme::Preset(start);
        for _ in 0..PRESET_COUNT {
            s = s.next();
        }
        assert_eq!(s.preset_index(), Some(start));
    }
}

#[test]
fn color_scheme_palettes_and_equality() {
    assert_eq!(ColorScheme::Preset(1).get_palette().name, "Fire");
    assert_eq!(ColorScheme::Preset(99).get_palette().name, "Smooth Rainbow");
    let custom = ColorScheme::Custom(Palette::new("Mine", vec![stop(0.3, [0.0; 3])]));
    assert_eq!(custom.get_palette().name, "Mine");
    assert_eq!(custom.get_palette().stops[0].position, b(0.3));
    assert_eq!(custom.preset_index(), None);
    assert_eq!(ColorScheme::Preset(4).preset_index(), Some(4));
    assert!(ColorScheme::default() == ColorScheme::Preset(0));
    assert!(ColorScheme::Preset(2) != ColorScheme::Preset(3));
    assert!(custom != custom.clone());
}

#[test]
fn editor_opens_on_a_custom_copy() {
    let mut e = PaletteEditor::new();
    assert!(!e.is_open());
    assert_eq!(e.editing_palette().name, "Smooth Rainbow");
    assert_eq!(e.selected_stop(), None);
    e.open(&ColorScheme::Preset(1));
    assert!(e.is_open());
    assert_eq!(e.editing_palette().name, "Custom");
    assert_eq!(e.editing_palette().stops.len(), 6);
    assert_eq!(e.selected_stop(), Some(0));
    e.open(&ColorScheme::Custom(Palette::new("Empty", vec![])));
    assert_eq!(e.selected_stop(), None);
    e.set_open(false);
    assert!(!e.is_open());
}

#[test]
fn editor_removal_moves_selection_back() {
    let mut e = PaletteEditor::new();
    e.load_preset(3);
    e.add_stop(b(0.5), [b(0.5); 3]);
    assert_eq!(e.editing_palette().stops.len(), 3);
    e.select_stop(2);
    e.remove_stop(2);
    assert_eq!(e.editing_palette().stops.len(), 2);
    assert_eq!(e.selected_stop(), Some(1));
    e.remove_stop(0);
    assert_eq!(e.editing_palette().stops.len(), 2);
    assert_eq!(e.selected_stop(), Some(1));
}

#[test]
fn editor_apply_sorts() {
    let mut e = PaletteEditor::new();
    e.load_preset(3);
    assert_eq!(e.editing_palette().name, "Custom");
    e.set_stop_position(0, b(0.9));
    e.set_stop_color(1, [b(0.2); 3]);
    let p = e.apply();
    assert_eq!(positions(&p), vec![0.9, 1.0]);
    assert_eq!(p.stops[0].color, [b(0.0); 3]);
    assert_eq!(p.stops[1].color, [b(0.2); 3]);
    e.set_stop_position(1, b(0.1));
    let p = e.apply();
    assert_eq!(positions(&p), vec![0.1, 0.9]);
    assert_eq!(p.stops[0].color, [b(0.2); 3]);
    assert_eq!(positions(e.editing_palette()), vec![0.1, 0.9]);
}
