# apogee

The verified core of Apogee, a desktop application for running an astronomy
camera and viewing a live planetarium.

- `src/` — the library, verified with Verus:
  - `theme` — theme modes and the built-in themes;
  - `workspace` — the layout model: workbench, workspaces, docks, panels;
  - `planetarium`, `apogee_planetarium` — the state shared between the UI
    and the Bevy renderer thread, and the renderer's decisions (how to wait,
    which commands to apply, how to resize, when to publish a texture);
  - `viewport` — the planetarium panel as the workbench sees it;
  - `gphoto`, `protocol` — the camera driver's connection sequence, its
    handling of requests while it waits, and the results of captures;
  - `sequence`, `app_state` — plain data.
- `tests/` — tests of the library on concrete values.
- `app/` — the gpui application, the Bevy renderer thread and the tokio
  camera task, which call the library for the layout, renderer and driver
  decisions. Two choices live only there: a capture request stops the camera
  task (captures are not implemented), and the USB power reset only logs a
  warning (this host cannot power-cycle the port).
