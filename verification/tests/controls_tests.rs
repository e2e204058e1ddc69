use fractal_explorer::color_scheme::ColorScheme;
use fractal_explorer::controls::{
    decrease_max_iter, increase_max_iter, Key, ParamAxis, ViewAction, ViewerState,
};
use fractal_explorer::export::ExportResolution;
use fractal_explorer::fractals::{
    Buddhabrot, BurningShip, ComplexBits, FractalParams, FractalType, Julia, Mandelbrot, Nova,
};

fn julia() -> FractalType {
    FractalType::Julia { c: ComplexBits { re: (-0.7f32).to_bits(), im: 0.27015f32.to_bits() } }
}

#[test]
fn fractal_ids_names_and_params() {
    let nova = FractalType::Nova { c: ComplexBits { re: 1.0f32.to_bits(), im: 0 } };
    let all = [
        FractalType::Mandelbrot,
        julia(),
        FractalType::BurningShip,
        FractalType::Tricorn,
        FractalType::Buddhabrot,
        nova,
    ];
    let names = ["Mandelbrot Set", "Julia Set", "Burning Ship", "Tricorn", "Buddhabrot", "Nova Fractal"];
    for (i, f) in all.iter().enumerate() {
        assert_eq!(f.type_id(), i as u32);
        assert_eq!(f.name(), names[i]);
        assert_eq!(f.is_buddhabrot(), i == 4);
        assert_eq!(f.uses_perturbation(true), i <= 1);
        assert!(!f.uses_perturbation(false));
    }
    assert_eq!(julia().params(), FractalParams { c_real: (-0.7f32).to_bits(), c_imag: 0.27015f32.to_bits() });
    assert_eq!(nova.params().c_real, 1.0f32.to_bits());
    assert_eq!(FractalType::Tricorn.params(), FractalParams::default());
    assert_eq!(FractalParams::default(), FractalParams { c_real: 0, c_imag: 0 });
}

#[test]
fn fractal_structs() {
    assert_eq!(Mandelbrot.type_id(), 0);
    assert_eq!(Mandelbrot.name(), "Mandelbrot Set");
    assert_eq!(BurningShip.type_id(), 2);
    assert_eq!(BurningShip.get_params(), FractalParams::default());
    assert_eq!(Buddhabrot.type_id(), 4);
    assert_eq!(Buddhabrot.name(), "Buddhabrot");
    let j = Julia::default();
    assert_eq!(f32::from_bits(j.c.re), -0.7);
    assert_eq!(f32::from_bits(j.c.im), 0.27015);
    assert_eq!(j.type_id(), 1);
    let n = Nova::default();
    assert_eq!(f32::from_bits(n.c.re), 1.0);
    assert_eq!(n.get_params().c_imag, 0);
    assert_eq!(Nova::new(ComplexBits { re: 5, im: 6 }).name(), "Nova Fractal");
    assert_eq!(Julia::new(ComplexBits { re: 5, im: 6 }).get_params().c_imag, 6);
}

#[test]
fn iteration_limits() {
    assert_eq!(increase_max_iter(256), 320);
    assert_eq!(increase_max_iter(4090), 4096);
    assert_eq!(increase_max_iter(4096), 4096);
    assert_eq!(decrease_max_iter(256), 192);
    assert_eq!(decrease_max_iter(100), 64);
    assert_eq!(decrease_max_iter(10), 64);
    assert_eq!(decrease_max_iter(0), 64);
    for m in (64..=4032).step_by(64) {
        assert_eq!(decrease_max_iter(increase_max_iter(m)), m);
    }
}

#[test]
fn fresh_state() {
    let s = ViewerState::new();
    assert_eq!(s.fractal, FractalType::Mandelbrot);
    assert_eq!(s.max_iter, 256);
    assert!(s.color == ColorScheme::Preset(0));
    assert!(s.palette_dirty && s.buddhabrot_dirty && !s.linked_mode);
}

#[test]
fn number_keys_select_fractals() {
    let mut s = ViewerState::new();
    assert_eq!(s.handle_key(Key::Character('2')), ViewAction::ShowDefaultView);
    assert_eq!(s.fractal, julia());
    s.handle_key(Key::Character('3'));
    assert_eq!(s.fractal, FractalType::BurningShip);
    s.handle_key(Key::Character('4'));
    assert_eq!(s.fractal, FractalType::Tricorn);
    s.handle_key(Key::Character('5'));
    assert_eq!(s.fractal, FractalType::Buddhabrot);
    s.handle_key(Key::Character('6'));
    assert_eq!(s.fractal, FractalType::Nova { c: ComplexBits { re: 1.0f32.to_bits(), im: 0 } });
    s.handle_key(Key::Character('1'));
    assert_eq!(s.fractal, FractalType::Mandelbrot);
}

#[test]
fn iteration_and_reset_keys() {
    let mut s = ViewerState::new();
    assert_eq!(s.handle_key(Key::Character('+')), ViewAction::Unchanged);
    assert_eq!(s.max_iter, 320);
    s.handle_key(Key::Character('='));
    assert_eq!(s.max_iter, 384);
    s.handle_key(Key::Character('-'));
    s.handle_key(Key::Character('_'));
    assert_eq!(s.max_iter, 256);
    s.max_iter = 1000;
    assert_eq!(s.handle_key(Key::Character('R')), ViewAction::ResetView);
    assert_eq!(s.max_iter, 256);
}

#[test]
fn panning_rotating_and_zooming_keys() {
    let mut s = ViewerState::new();
    assert_eq!(s.handle_key(Key::ArrowUp), ViewAction::Pan { dx: 0, dy: 80 });
    assert_eq!(s.handle_key(Key::Character('w')), ViewAction::Pan { dx: 0, dy: 80 });
    assert_eq!(s.handle_key(Key::ArrowDown), ViewAction::Pan { dx: 0, dy: -80 });
    assert_eq!(s.handle_key(Key::Character('S')), ViewAction::Pan { dx: 0, dy: -80 });
    assert_eq!(s.handle_key(Key::ArrowLeft), ViewAction::Pan { dx: 80, dy: 0 });
    assert_eq!(s.handle_key(Key::Character('a')), ViewAction::Pan { dx: 80, dy: 0 });
    assert_eq!(s.handle_key(Key::ArrowRight), ViewAction::Pan { dx: -80, dy: 0 });
    assert_eq!(s.handle_key(Key::Character('D')), ViewAction::Pan { dx: -80, dy: 0 });
    assert_eq!(s.handle_key(Key::Character('q')), ViewAction::Rotate { clockwise: true });
    assert_eq!(s.handle_key(Key::Character('E')), ViewAction::Rotate { clockwise: false });
    assert_eq!(s.handle_key(Key::Character('t')), ViewAction::ZoomAtCenter { zoom_in: true });
    assert_eq!(s.handle_key(Key::Character('g')), ViewAction::ZoomAtCenter { zoom_in: false });
    assert_eq!(s.handle_key(Key::Character('Z')), ViewAction::ZoomAtCenter { zoom_in: false });
    assert_eq!(s.handle_key(Key::Character('x')), ViewAction::Unchanged);
    assert_eq!(s.handle_key(Key::Other), ViewAction::Unchanged);
}

#[test]
fn buddhabrot_restarts_when_its_view_moves() {
    let mut s = ViewerState::new();
    s.buddhabrot_dirty = false;
    s.handle_key(Key::ArrowUp);
    assert!(!s.buddhabrot_dirty);
    s.handle_key(Key::Character('5'));
    assert!(!s.buddhabrot_dirty);
    s.handle_key(Key::Character('t'));
    assert!(s.buddhabrot_dirty);
}

#[test]
fn color_and_export_keys() {
    let mut s = ViewerState::new();
    s.palette_dirty = false;
    s.handle_key(Key::Character('c'));
    assert!(s.color == ColorScheme::Preset(1));
    assert!(s.palette_dirty);
    s.color = ColorScheme::Preset(6);
    s.handle_key(Key::Character('C'));
    assert!(s.color == ColorScheme::Preset(0));
    assert_eq!(s.pending_export, None);
    s.handle_key(Key::Character('p'));
    assert_eq!(s.pending_export, Some(ExportResolution::HD1080p));
}

#[test]
fn parameter_keys() {
    let mut s = ViewerState::new();
    assert_eq!(s.handle_key(Key::Character('j')), ViewAction::Unchanged);
    s.handle_key(Key::Character('2'));
    assert_eq!(
        s.handle_key(Key::Character('J')),
        ViewAction::AdjustParameter { axis: ParamAxis::Real, increase: false }
    );
    assert_eq!(
        s.handle_key(Key::Character('i')),
        ViewAction::AdjustParameter { axis: ParamAxis::Imaginary, increase: true }
    );
    assert_eq!(
        s.handle_key(Key::Character('k')),
        ViewAction::AdjustParameter { axis: ParamAxis::Imaginary, increase: false }
    );
    assert_eq!(
        s.handle_key(Key::Character('l')),
        ViewAction::AdjustParameter { axis: ParamAxis::Real, increase: true }
    );
    assert!(!s.linked_mode);
}

#[test]
fn l_toggles_the_split_view_and_back() {
    let mut s = ViewerState::new();
    s.handle_key(Key::Character('3'));
    assert_eq!(s.handle_key(Key::Character('L')), ViewAction::EnterLinkedView);
    assert!(s.linked_mode);
    assert_eq!(s.fractal, FractalType::Mandelbrot);
    assert_eq!(s.saved_fractal, Some(FractalType::BurningShip));
    assert_eq!(s.handle_key(Key::Character('l')), ViewAction::LeaveLinkedView { restored: true });
    assert!(!s.linked_mode);
    assert_eq!(s.fractal, FractalType::BurningShip);
    assert_eq!(s.saved_fractal, None);
}

#[test]
fn l_on_julia_in_split_view_leaves_it() {
    let mut s = ViewerState::new();
    s.handle_key(Key::Character('2'));
    s.toggle_linked_mode();
    s.fractal = julia();
    assert_eq!(s.handle_key(Key::Character('l')), ViewAction::LeaveLinkedView { restored: true });
    assert_eq!(s.fractal, julia());
    s.linked_mode = true;
    assert_eq!(s.toggle_linked_mode(), ViewAction::LeaveLinkedView { restored: false });
    assert!(!s.linked_mode);
}

#[test]
fn frames_restart_the_buddhabrot_when_switched_to() {
    let mut s = ViewerState::new();
    s.buddhabrot_dirty = false;
    let plan = s.begin_frame();
    assert!(!plan.buddhabrot && !plan.clear_accumulation);
    assert_eq!(plan.view, ViewAction::Unchanged);
    s.fractal = FractalType::Buddhabrot;
    s.buddhabrot_seed = 41;
    let plan = s.begin_frame();
    assert!(plan.buddhabrot && plan.clear_accumulation);
    assert_eq!(plan.seed, 41);
    assert_eq!(s.buddhabrot_seed, 0);
    assert!(!s.buddhabrot_dirty);
    assert_eq!(s.prev_fractal_type_id, 4);
    s.advance_buddhabrot_seed();
    let plan = s.begin_frame();
    assert!(plan.buddhabrot && !plan.clear_accumulation);
    assert_eq!(plan.seed, 1);
    s.buddhabrot_seed = u32::MAX;
    s.advance_buddhabrot_seed();
    assert_eq!(s.buddhabrot_seed, 0);
}

#[test]
fn frames_perform_a_deferred_toggle() {
    let mut s = ViewerState::new();
    s.fractal = FractalType::Tricorn;
    s.pending_toggle_linked = true;
    let plan = s.begin_frame();
    assert_eq!(plan.view, ViewAction::EnterLinkedView);
    assert!(!s.pending_toggle_linked);
    assert!(s.linked_mode);
    assert_eq!(s.fractal, FractalType::Mandelbrot);
    assert_eq!(s.prev_fractal_type_id, 0);
}
