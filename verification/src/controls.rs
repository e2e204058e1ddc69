//! The explorer's view state and how keyboard input changes it.
//!
//! The camera itself works in floating point and stays with the caller: a
//! key press updates the discrete state here and returns the camera motion,
//! if any, that the caller performs.
use vstd::prelude::*;

use crate::color_scheme::{next_preset_index, ColorScheme};
use crate::export::ExportResolution;
use crate::fractals::{default_julia, default_nova, FractalType};

verus! {

/// Iteration limit of a fresh or reset view.
pub const DEFAULT_MAX_ITER: u32 = 256;

/// Smallest iteration limit the keyboard can set.
pub const MIN_MAX_ITER: u32 = 64;

/// Largest iteration limit the keyboard can set.
pub const MAX_MAX_ITER: u32 = 4096;

/// Change of the iteration limit per key press.
pub const MAX_ITER_STEP: u32 = 64;

/// Screen pixels the view moves per panning key press.
pub const PAN_STEP: i32 = 80;

/// A key as the explorer distinguishes keys: a single character, an arrow,
/// or anything else.
#[derive(Clone, Copy, Debug, PartialEq, Eq, Structural)]
pub enum Key {
    Character(char),
    ArrowUp,
    ArrowDown,
    ArrowLeft,
    ArrowRight,
    Other,
}

/// A part of the complex parameter `c`.
#[derive(Clone, Copy, Debug, PartialEq, Eq, Structural)]
pub enum ParamAxis {
    Real,
    Imaginary,
}

/// What the caller does to the cameras after a state change.
#[derive(Clone, Copy, Debug, PartialEq, Eq, Structural)]
pub enum ViewAction {
    /// The cameras stay as they are.
    Unchanged,
    /// Move the camera to the current fractal's default center and zoom.
    ShowDefaultView,
    /// Move the camera to the current fractal's default center and zoom and
    /// undo any rotation.
    ResetView,
    /// Show the Mandelbrot set at its default view beside a Julia set at its
    /// default view, both unrotated.
    EnterLinkedView,
    /// Leave the split view; when a fractal was restored, show it at its
    /// default view, unrotated.
    LeaveLinkedView { restored: bool },
    /// Pan by a screen-space delta in pixels.
    Pan { dx: i32, dy: i32 },
    /// Rotate the view by one step.
    Rotate { clockwise: bool },
    /// Zoom in or out by one step about the screen center.
    ZoomAtCenter { zoom_in: bool },
    /// Nudge one part of the fractal's parameter `c` by one step.
    AdjustParameter { axis: ParamAxis, increase: bool },
}

/// The discrete state of the explorer.
pub struct ViewerState {
    pub fractal: FractalType,
    pub max_iter: u32,
    pub color: ColorScheme,
    /// The palette must be uploaded to the GPU again.
    pub palette_dirty: bool,
    /// The Buddhabrot accumulation must be restarted.
    pub buddhabrot_dirty: bool,
    /// A still export to perform after the current frame.
    pub pending_export: Option<ExportResolution>,
    /// Mandelbrot and Julia side by side.
    pub linked_mode: bool,
    /// The fractal shown before the split view, restored when it ends.
    pub saved_fractal: Option<FractalType>,
    /// A split-view toggle to perform at the start of the next frame.
    pub pending_toggle_linked: bool,
    /// Seed of the Buddhabrot's random samples, advanced every frame.
    pub buddhabrot_seed: u32,
    /// Type selector of the fractal drawn in the previous frame.
    pub prev_fractal_type_id: u32,
}

/// What a frame draws, decided at its start.
#[derive(Clone, Copy, Debug, PartialEq, Eq, Structural)]
pub struct FramePlan {
    /// The camera motion of a deferred split-view toggle.
    pub view: ViewAction,
    /// The frame draws the Buddhabrot.
    pub buddhabrot: bool,
    /// Seed passed to the Buddhabrot sampler in this frame.
    pub seed: u32,
    /// The Buddhabrot accumulation is cleared before drawing.
    pub clear_accumulation: bool,
}

/// The iteration limit after the increase key: one step up, at most the maximum.
pub open spec fn increased_max_iter(m: u32) -> u32 {
    if m + MAX_ITER_STEP <= MAX_MAX_ITER {
        (m + MAX_ITER_STEP) as u32
    } else {
        MAX_MAX_ITER
    }
}

/// The iteration limit after the decrease key: one step down, at least the minimum.
pub open spec fn decreased_max_iter(m: u32) -> u32 {
    if m >= MIN_MAX_ITER + MAX_ITER_STEP {
        (m - MAX_ITER_STEP) as u32
    } else {
        MIN_MAX_ITER
    }
}

/// `(m + 64).min(4096)`.
pub fn increase_max_iter(m: u32) -> (r: u32)
    requires
        m + MAX_ITER_STEP <= u32::MAX,
    ensures
        r == increased_max_iter(m),
{
    let up = m + MAX_ITER_STEP;
    if up < MAX_MAX_ITER {
        up
    } else {
        MAX_MAX_ITER
    }
}

/// `m.saturating_sub(64).max(64)`.
pub fn decrease_max_iter(m: u32) -> (r: u32)
    ensures
        r == decreased_max_iter(m),
{
    let down = if m >= MAX_ITER_STEP {
        m - MAX_ITER_STEP
    } else {
        0
    };
    if down > MIN_MAX_ITER {
        down
    } else {
        MIN_MAX_ITER
    }
}

/// The iteration keys keep a limit within `[64, 4096]`, and away from the
/// bounds one key undoes the other.
pub proof fn lemma_max_iter_keys(m: u32)
    requires
        MIN_MAX_ITER <= m <= MAX_MAX_ITER,
    ensures
        MIN_MAX_ITER <= increased_max_iter(m) <= MAX_MAX_ITER,
        MIN_MAX_ITER <= decreased_max_iter(m) <= MAX_MAX_ITER,
        m + MAX_ITER_STEP <= MAX_MAX_ITER ==> decreased_max_iter(increased_max_iter(m)) == m,
        m >= MIN_MAX_ITER + MAX_ITER_STEP ==> increased_max_iter(decreased_max_iter(m)) == m,
{
}

/// The key is the given letter in either case.
pub open spec fn is_letter(key: Key, lower: char, upper: char) -> bool {
    key == Key::Character(lower) || key == Key::Character(upper)
}

/// The fractal a number key selects.
pub open spec fn selected_fractal(key: Key) -> Option<FractalType> {
    if key == Key::Character('1') {
        Some(FractalType::Mandelbrot)
    } else if key == Key::Character('2') {
        Some(default_julia())
    } else if key == Key::Character('3') {
        Some(FractalType::BurningShip)
    } else if key == Key::Character('4') {
        Some(FractalType::Tricorn)
    } else if key == Key::Character('5') {
        Some(FractalType::Buddhabrot)
    } else if key == Key::Character('6') {
        Some(default_nova())
    } else {
        None
    }
}

/// The screen-space pan of the arrow keys and W, A, S, D.
pub open spec fn pan_delta(key: Key) -> Option<(i32, i32)> {
    if key == Key::ArrowUp || is_letter(key, 'w', 'W') {
        Some((0i32, PAN_STEP))
    } else if key == Key::ArrowDown || is_letter(key, 's', 'S') {
        Some((0i32, (-PAN_STEP) as i32))
    } else if key == Key::ArrowLeft || is_letter(key, 'a', 'A') {
        Some((PAN_STEP, 0i32))
    } else if key == Key::ArrowRight || is_letter(key, 'd', 'D') {
        Some(((-PAN_STEP) as i32, 0i32))
    } else {
        None
    }
}

/// Q rotates clockwise, E anticlockwise.
pub open spec fn rotation_step(key: Key) -> Option<bool> {
    if is_letter(key, 'q', 'Q') {
        Some(true)
    } else if is_letter(key, 'e', 'E') {
        Some(false)
    } else {
        None
    }
}

/// T zooms in, G and Z zoom out.
pub open spec fn zoom_step(key: Key) -> Option<bool> {
    if is_letter(key, 't', 'T') {
        Some(true)
    } else if is_letter(key, 'g', 'G') || is_letter(key, 'z', 'Z') {
        Some(false)
    } else {
        None
    }
}

/// J lowers the real part of `c`, I raises and K lowers the imaginary part
/// (L, which raises the real part, doubles as the split-view key).
pub open spec fn parameter_step(key: Key) -> Option<(ParamAxis, bool)> {
    if is_letter(key, 'j', 'J') {
        Some((ParamAxis::Real, false))
    } else if is_letter(key, 'i', 'I') {
        Some((ParamAxis::Imaginary, true))
    } else if is_letter(key, 'k', 'K') {
        Some((ParamAxis::Imaginary, false))
    } else {
        None
    }
}

/// The fractal has a complex parameter the keyboard can adjust.
pub open spec fn has_parameter(f: FractalType) -> bool {
    f matches FractalType::Julia { .. } || f matches FractalType::Nova { .. }
}

/// The state marked for a Buddhabrot restart when the Buddhabrot's view moves.
pub open spec fn mark_view_moved(s: ViewerState) -> ViewerState {
    ViewerState { buddhabrot_dirty: s.buddhabrot_dirty || s.fractal == FractalType::Buddhabrot, ..s }
}

/// Entering the split view saves the fractal and shows the Mandelbrot set;
/// leaving it restores the saved fractal, if there is one.
pub open spec fn toggled_linked(s: ViewerState) -> (ViewerState, ViewAction) {
    if !s.linked_mode {
        (
            ViewerState {
                linked_mode: true,
                saved_fractal: Some(s.fractal),
                fractal: FractalType::Mandelbrot,
                ..s
            },
            ViewAction::EnterLinkedView,
        )
    } else {
        match s.saved_fractal {
            Some(f) => (
                ViewerState { linked_mode: false, saved_fractal: None, fractal: f, ..s },
                ViewAction::LeaveLinkedView { restored: true },
            ),
            None => (
                ViewerState { linked_mode: false, ..s },
                ViewAction::LeaveLinkedView { restored: false },
            ),
        }
    }
}

/// The state and camera motion after a key press.
pub open spec fn key_effect(s: ViewerState, key: Key) -> (ViewerState, ViewAction) {
    if let Some(f) = selected_fractal(key) {
        (ViewerState { fractal: f, ..s }, ViewAction::ShowDefaultView)
    } else if is_letter(key, 'r', 'R') {
        (ViewerState { max_iter: DEFAULT_MAX_ITER, ..s }, ViewAction::ResetView)
    } else if is_letter(key, '=', '+') {
        (ViewerState { max_iter: increased_max_iter(s.max_iter), ..s }, ViewAction::Unchanged)
    } else if is_letter(key, '-', '_') {
        (ViewerState { max_iter: decreased_max_iter(s.max_iter), ..s }, ViewAction::Unchanged)
    } else if let Some((dx, dy)) = pan_delta(key) {
        (mark_view_moved(s), ViewAction::Pan { dx, dy })
    } else if is_letter(key, 'c', 'C') {
        (
            ViewerState {
                color: ColorScheme::Preset(next_preset_index(s.color)),
                palette_dirty: true,
                ..s
            },
            ViewAction::Unchanged,
        )
    } else if is_letter(key, 'p', 'P') {
        (ViewerState { pending_export: Some(ExportResolution::HD1080p), ..s }, ViewAction::Unchanged)
    } else if let Some(clockwise) = rotation_step(key) {
        (mark_view_moved(s), ViewAction::Rotate { clockwise })
    } else if let Some(zoom_in) = zoom_step(key) {
        (mark_view_moved(s), ViewAction::ZoomAtCenter { zoom_in })
    } else if let Some((axis, increase)) = parameter_step(key) {
        if has_parameter(s.fractal) {
            (s, ViewAction::AdjustParameter { axis, increase })
        } else {
            (s, ViewAction::Unchanged)
        }
    } else if is_letter(key, 'l', 'L') {
        if has_parameter(s.fractal) && !s.linked_mode {
            (s, ViewAction::AdjustParameter { axis: ParamAxis::Real, increase: true })
        } else {
            toggled_linked(s)
        }
    } else {
        (s, ViewAction::Unchanged)
    }
}

impl ViewerState {
    /// The state at start-up: the Mandelbrot set with the first preset palette.
    pub fn new() -> (s: ViewerState)
        ensures
            s.fractal == FractalType::Mandelbrot,
            s.max_iter == DEFAULT_MAX_ITER,
            s.color == ColorScheme::Preset(0),
            s.palette_dirty,
            s.buddhabrot_dirty,
            s.pending_export is None,
            !s.linked_mode,
            s.saved_fractal is None,
            !s.pending_toggle_linked,
            s.buddhabrot_seed == 0,
            s.prev_fractal_type_id == 0,
    {
        ViewerState {
            fractal: FractalType::Mandelbrot,
            max_iter: DEFAULT_MAX_ITER,
            color: ColorScheme::Preset(0),
            palette_dirty: true,
            buddhabrot_dirty: true,
            pending_export: None,
            linked_mode: false,
            saved_fractal: None,
            pending_toggle_linked: false,
            buddhabrot_seed: 0,
            prev_fractal_type_id: 0,
        }
    }

    /// Switches between the single view and the Mandelbrot/Julia split view.
    pub fn toggle_linked_mode(&mut self) -> (r: ViewAction)
        ensures
            (*final(self), r) == toggled_linked(*old(self)),
    {
        self.linked_mode = !self.linked_mode;
        if self.linked_mode {
            self.saved_fractal = Some(self.fractal);
            self.fractal = FractalType::Mandelbrot;
            ViewAction::EnterLinkedView
        } else {
            match self.saved_fractal.take() {
                Some(saved) => {
                    self.fractal = saved;
                    ViewAction::LeaveLinkedView { restored: true }
                },
                None => ViewAction::LeaveLinkedView { restored: false },
            }
        }
    }

    /// Marks the Buddhabrot for a restart if it is shown.
    fn view_moved(&mut self)
        ensures
            *final(self) == mark_view_moved(*old(self)),
    {
        if self.fractal.is_buddhabrot() {
            self.buddhabrot_dirty = true;
        }
    }

    /// Applies a pressed key.
    pub fn handle_key(&mut self, key: Key) -> (r: ViewAction)
        requires
            is_letter(key, '=', '+') ==> old(self).max_iter + MAX_ITER_STEP <= u32::MAX,
            is_letter(key, 'c', 'C') ==> (old(self).color matches ColorScheme::Preset(i) ==> i
                < usize::MAX),
        ensures
            (*final(self), r) == key_effect(*old(self), key),
    {
        match key {
            Key::Character(c) => {
                if c == '1' {
                    self.fractal = FractalType::Mandelbrot;
                    ViewAction::ShowDefaultView
                } else if c == '2' {
                    self.fractal = FractalType::Julia { c: crate::fractals::Julia::default().c };
                    ViewAction::ShowDefaultView
                } else if c == '3' {
                    self.fractal = FractalType::BurningShip;
                    ViewAction::ShowDefaultView
                } else if c == '4' {
                    self.fractal = FractalType::Tricorn;
                    ViewAction::ShowDefaultView
                } else if c == '5' {
                    self.fractal = FractalType::Buddhabrot;
                    ViewAction::ShowDefaultView
                } else if c == '6' {
                    self.fractal = FractalType::Nova { c: crate::fractals::Nova::default().c };
                    ViewAction::ShowDefaultView
                } else if c == 'r' || c == 'R' {
                    self.max_iter = DEFAULT_MAX_ITER;
                    ViewAction::ResetView
                } else if c == '=' || c == '+' {
                    self.max_iter = increase_max_iter(self.max_iter);
                    ViewAction::Unchanged
                } else if c == '-' || c == '_' {
                    self.max_iter = decrease_max_iter(self.max_iter);
                    ViewAction::Unchanged
                } else if c == 'w' || c == 'W' {
                    self.view_moved();
                    ViewAction::Pan { dx: 0, dy: PAN_STEP }
                } else if c == 's' || c == 'S' {
                    self.view_moved();
                    ViewAction::Pan { dx: 0, dy: -PAN_STEP }
                } else if c == 'a' || c == 'A' {
                    self.view_moved();
                    ViewAction::Pan { dx: PAN_STEP, dy: 0 }
                } else if c == 'd' || c == 'D' {
                    self.view_moved();
                    ViewAction::Pan { dx: -PAN_STEP, dy: 0 }
                } else if c == 'c' || c == 'C' {
                    self.color = self.color.next();
                    self.palette_dirty = true;
                    ViewAction::Unchanged
                } else if c == 'p' || c == 'P' {
                    self.pending_export = Some(ExportResolution::HD1080p);
                    ViewAction::Unchanged
                } else if c == 'q' || c == 'Q' {
                    self.view_moved();
                    ViewAction::Rotate { clockwise: true }
                } else if c == 'e' || c == 'E' {
                    self.view_moved();
                    ViewAction::Rotate { clockwise: false }
                } else if c == 't' || c == 'T' {
                    self.view_moved();
                    ViewAction::ZoomAtCenter { zoom_in: true }
                } else if c == 'g' || c == 'G' || c == 'z' || c == 'Z' {
                    self.view_moved();
                    ViewAction::ZoomAtCenter { zoom_in: false }
                } else if c == 'j' || c == 'J' || c == 'i' || c == 'I' || c == 'k' || c == 'K' {
                    let axis = if c == 'j' || c == 'J' {
                        ParamAxis::Real
                    } else {
                        ParamAxis::Imaginary
                    };
                    let increase = c == 'i' || c == 'I';
                    match self.fractal {
                        FractalType::Julia { .. } | FractalType::Nova { .. } => {
                            ViewAction::AdjustParameter { axis, increase }
                        },
                        _ => ViewAction::Unchanged,
                    }
                } else if c == 'l' || c == 'L' {
                    match self.fractal {
                        FractalType::Julia { .. } if !self.linked_mode => {
                            ViewAction::AdjustParameter { axis: ParamAxis::Real, increase: true }
                        },
                        FractalType::Nova { .. } if !self.linked_mode => {
                            ViewAction::AdjustParameter { axis: ParamAxis::Real, increase: true }
                        },
                        _ => self.toggle_linked_mode(),
                    }
                } else {
                    ViewAction::Unchanged
                }
            },
            Key::ArrowUp => {
                self.view_moved();
                ViewAction::Pan { dx: 0, dy: PAN_STEP }
            },
            Key::ArrowDown => {
                self.view_moved();
                ViewAction::Pan { dx: 0, dy: -PAN_STEP }
            },
            Key::ArrowLeft => {
                self.view_moved();
                ViewAction::Pan { dx: PAN_STEP, dy: 0 }
            },
            Key::ArrowRight => {
                self.view_moved();
                ViewAction::Pan { dx: -PAN_STEP, dy: 0 }
            },
            Key::Other => ViewAction::Unchanged,
        }
    }

    /// Starts a frame: performs a deferred split-view toggle, notices a
    /// switch of fractal (which restarts the Buddhabrot) and decides whether
    /// the Buddhabrot accumulation is cleared. The frame's seed is the one
    /// before any restart.
    pub fn begin_frame(&mut self) -> (plan: FramePlan)
        ensures
            ({
                let t = if old(self).pending_toggle_linked {
                    toggled_linked(ViewerState { pending_toggle_linked: false, ..*old(self) })
                } else {
                    (*old(self), ViewAction::Unchanged)
                };
                let s = t.0;
                let buddhabrot = s.fractal == FractalType::Buddhabrot;
                let switched = crate::fractals::fractal_type_id(s.fractal)
                    != s.prev_fractal_type_id;
                let dirty = s.buddhabrot_dirty || (switched && buddhabrot);
                &&& plan == (FramePlan {
                    view: t.1,
                    buddhabrot,
                    seed: s.buddhabrot_seed,
                    clear_accumulation: buddhabrot && dirty,
                })
                &&& *final(self) == (ViewerState {
                    prev_fractal_type_id: crate::fractals::fractal_type_id(s.fractal),
                    buddhabrot_dirty: dirty && !buddhabrot,
                    buddhabrot_seed: if buddhabrot && dirty {
                        0
                    } else {
                        s.buddhabrot_seed
                    },
                    ..s
                })
            }),
    {
        let mut view = ViewAction::Unchanged;
        if self.pending_toggle_linked {
            self.pending_toggle_linked = false;
            view = self.toggle_linked_mode();
        }
        let buddhabrot = self.fractal.is_buddhabrot();
        let type_id = self.fractal.type_id();
        if type_id != self.prev_fractal_type_id {
            if buddhabrot {
                self.buddhabrot_dirty = true;
            }
            self.prev_fractal_type_id = type_id;
        }
        let seed = self.buddhabrot_seed;
        let clear_accumulation = buddhabrot && self.buddhabrot_dirty;
        if clear_accumulation {
            self.buddhabrot_seed = 0;
            self.buddhabrot_dirty = false;
        }
        FramePlan { view, buddhabrot, seed, clear_accumulation }
    }

    /// Ends a frame that drew the Buddhabrot on its own: the next frame
    /// samples with the next seed (wrapping around).
    pub fn advance_buddhabrot_seed(&mut self)
        ensures
            *final(self) == (ViewerState {
                buddhabrot_seed: if old(self).buddhabrot_seed == u32::MAX {
                    0
                } else {
                    (old(self).buddhabrot_seed + 1) as u32
                },
                ..*old(self)
            }),
    {
        self.buddhabrot_seed = if self.buddhabrot_seed == u32::MAX {
            0
        } else {
            self.buddhabrot_seed + 1
        };
    }
}

/// Toggling the split view twice restores the fractal that was shown, with
/// nothing saved any more.
pub proof fn lemma_toggle_linked_twice(s: ViewerState)
    requires
        !s.linked_mode,
    ensures
        toggled_linked(toggled_linked(s).0).0 == (ViewerState { saved_fractal: None, ..s }),
        toggled_linked(s).1 == ViewAction::EnterLinkedView,
        toggled_linked(toggled_linked(s).0).1 == (ViewAction::LeaveLinkedView { restored: true }),
{
}

/// The split view always shows the Mandelbrot set on its left, and leaving
/// it ends with nothing saved.
pub proof fn lemma_linked_view_shows_mandelbrot(s: ViewerState)
    ensures
        toggled_linked(s).0.linked_mode == !s.linked_mode,
        toggled_linked(s).0.linked_mode ==> toggled_linked(s).0.fractal
            == FractalType::Mandelbrot,
        !toggled_linked(s).0.linked_mode ==> toggled_linked(s).0.saved_fractal is None,
{
}

/// J, I and K adjust the parameter `c` of the Julia set and of the Nova
/// fractal alike: J lowers the real part, I raises and K lowers the imaginary
/// part, and the state itself stays as it is.
pub proof fn lemma_parameter_keys(s: ViewerState)
    requires
        s.fractal matches FractalType::Julia { .. } || s.fractal matches FractalType::Nova { .. },
    ensures
        key_effect(s, Key::Character('j')) == (s, ViewAction::AdjustParameter {
            axis: ParamAxis::Real,
            increase: false,
        }),
        key_effect(s, Key::Character('J')) == (s, ViewAction::AdjustParameter {
            axis: ParamAxis::Real,
            increase: false,
        }),
        key_effect(s, Key::Character('i')) == (s, ViewAction::AdjustParameter {
            axis: ParamAxis::Imaginary,
            increase: true,
        }),
        key_effect(s, Key::Character('I')) == (s, ViewAction::AdjustParameter {
            axis: ParamAxis::Imaginary,
            increase: true,
        }),
        key_effect(s, Key::Character('k')) == (s, ViewAction::AdjustParameter {
            axis: ParamAxis::Imaginary,
            increase: false,
        }),
        key_effect(s, Key::Character('K')) == (s, ViewAction::AdjustParameter {
            axis: ParamAxis::Imaginary,
            increase: false,
        }),
        !s.linked_mode ==> key_effect(s, Key::Character('l')) == (s, ViewAction::AdjustParameter {
            axis: ParamAxis::Real,
            increase: true,
        }),
{
}

/// On fractals without a parameter, J, I and K change nothing.
pub proof fn lemma_parameter_keys_without_parameter(s: ViewerState, c: char)
    requires
        !(s.fractal matches FractalType::Julia { .. }),
        !(s.fractal matches FractalType::Nova { .. }),
        c == 'j' || c == 'J' || c == 'i' || c == 'I' || c == 'k' || c == 'K',
    ensures
        key_effect(s, Key::Character(c)) == (s, ViewAction::Unchanged),
{
}

/// R resets the view and the iteration limit to 256, in either case, from
/// every state, and changes nothing else.
pub proof fn lemma_reset_key(s: ViewerState, c: char)
    requires
        c == 'r' || c == 'R',
    ensures
        key_effect(s, Key::Character(c)).0 == (ViewerState { max_iter: 256, ..s }),
        key_effect(s, Key::Character(c)).1 == ViewAction::ResetView,
{
}

/// The upper-case letter of a lower-case ASCII letter.
pub open spec fn upper_case(c: char) -> char {
    ((c as u32) - 32) as char
}

/// Letter keys do not depend on Shift: a lower-case letter and its
/// upper-case form have the same effect on every state.
pub proof fn lemma_letter_keys_ignore_case(s: ViewerState, c: char)
    requires
        'a' <= c <= 'z',
    ensures
        key_effect(s, Key::Character(c)) == key_effect(s, Key::Character(upper_case(c))),
{
    assert('A' as u32 == 65 && 'a' as u32 == 97 && 'z' as u32 == 122 && 'Z' as u32 == 90);
    assert(upper_case(c) != c);
    assert(upper_case(c) != '1' && upper_case(c) != '2' && upper_case(c) != '3');
    assert(upper_case(c) != '4' && upper_case(c) != '5' && upper_case(c) != '6');
    assert(upper_case(c) != '=' && upper_case(c) != '+' && upper_case(c) != '-'
        && upper_case(c) != '_');
    if c == 'a' { assert(upper_case(c) == 'A'); }
    if c == 'c' { assert(upper_case(c) == 'C'); }
    if c == 'd' { assert(upper_case(c) == 'D'); }
    if c == 'e' { assert(upper_case(c) == 'E'); }
    if c == 'g' { assert(upper_case(c) == 'G'); }
    if c == 'i' { assert(upper_case(c) == 'I'); }
    if c == 'j' { assert(upper_case(c) == 'J'); }
    if c == 'k' { assert(upper_case(c) == 'K'); }
    if c == 'l' { assert(upper_case(c) == 'L'); }
    if c == 'p' { assert(upper_case(c) == 'P'); }
    if c == 'q' { assert(upper_case(c) == 'Q'); }
    if c == 'r' { assert(upper_case(c) == 'R'); }
    if c == 's' { assert(upper_case(c) == 'S'); }
    if c == 't' { assert(upper_case(c) == 'T'); }
    if c == 'w' { assert(upper_case(c) == 'W'); }
    if c == 'z' { assert(upper_case(c) == 'Z'); }
}

} // verus!
