# wgpu_mandelbrot

A GPU Mandelbrot viewer. The window, the GPU pipeline and the floating-point
camera live in `app/`; the decisions they rest on are a verified library in
`src/`:

- `compute`: the dispatch dimensions of the Mandelbrot compute shader, proved
  to be the fewest x steps whose invocations exceed the requested work
  (one step more than needed when the work is an exact multiple of a step).
- `viewport`: the window size measured at start-up and the surface size;
  resizes with a zero side are ignored.
- `events`: what the event loop does with each window input and with the
  outcome of presenting a frame.
- `input`: the keyboard panning rule (A/D/W/S and Space), read through
  `winit_input_helper`.
- `surface`: the choice of the surface's texture format.

The render pipeline reads its WGSL source from `shader.wgsl` in the working
directory at start-up.
