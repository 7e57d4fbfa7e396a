# sph_synth

An SPH (smoothed-particle hydrodynamics) fluid toy: particles are stepped by
compute shaders and drawn straight from the GPU buffer, with a click-and-drag
push.

- `src/` is the verified library (Verus):
  - `spatial_hash` — uniform-grid neighbour search over particle cells;
  - `grid` — layout of the initial particle block;
  - `dispatch` — compute passes and workgroup counts of one physics step;
  - `surface` — surface sizing and what to do with each acquired frame;
  - `events` — window-event state machines of the interactive viewers.
- `app/` is the program around it: window, GPU objects, shaders, and the
  floating-point parts (world coordinates, physics parameters).
- `tests/` runs the library on concrete inputs.
