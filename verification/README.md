# swerve_sim_3d

A swerve-drive robot simulator and the debug window that draws its physics
world, with the discrete logic verified by Verus.

- `src/` is the verified library: the transfer protocol that carries debug
  lines to the window (`message`), the frame collected on the simulator's
  side (`util::debug_render`), the vertex list built from lines (`vertex`),
  the camera key bindings (`camera`), the window's surface and frame
  decisions (`window`), redraw and simulation-loop pacing (`timing`), and
  the MK4i module options (`swerve_module::default_configs`).
- `app/` is the program around it: the physics world, robots and swerve
  modules on the physics engine, the motor model and colour conversion
  (all floating point), the GPU renderer, and the IPC plumbing. Started
  without arguments it simulates; started with a connection token it is
  the debug window.
- `tests/` exercises the library on concrete values.
