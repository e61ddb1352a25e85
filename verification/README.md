# muziekshaker

A small wgpu viewer that draws a grid of instanced cubes and lets the user fly
the camera with the keyboard.

- `src/` is the verified library: the keyboard camera controller
  (`camera`, `input`), the window loop's decisions (`events`), polygon-mode
  cycling (`render_mode`), surface resizing (`surface`), and the instance grid
  and instance-buffer layout (`instance`). Contracts and laws are checked by
  Verus.
- `app/` is the program: window, event loop, wgpu setup and drawing, and the
  floating-point camera geometry (cgmath), all built on the library's
  decisions.
- `tests/` runs the library on concrete inputs.

Keys: W/S forward and back, A/D left and right, Q/E up and down, J/L, U/O and
I/K turn the view target; F1 cycles fill, wireframe and point rendering;
Escape quits.
