# fractal_explorer

A real-time fractal explorer (Mandelbrot, Julia, Burning Ship, Tricorn,
Buddhabrot, Nova) whose core logic is verified with Verus.

## Layout

- `src/` — the verified library.
  - `float_bits` — ordering and clamping of single-precision values held as
    IEEE-754 bit patterns.
  - `palette`, `presets`, `color_scheme` — gradient palettes kept sorted by
    stop position, the seven built-in palettes, and the preset/custom scheme
    selector.
  - `palette_editor` — state of the palette editor window.
  - `fractals` — the fractal families, their shader selectors and names, and
    when perturbation rendering applies.
  - `controls` — the discrete view state and its keyboard transitions,
    including the Mandelbrot/Julia split view and Buddhabrot restarts.
  - `export` — output resolutions, the padded row layout of GPU readback
    buffers, and timestamped export file names.
- `tests/` — tests of the library on concrete values.
- `app/` — the program: window and input (winit), GPU rendering (wgpu),
  interface (egui), camera and reference-orbit arithmetic in floating point,
  PNG and video export. It loads its WGSL shaders from a `shaders/`
  directory at run time.
