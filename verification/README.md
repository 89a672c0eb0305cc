# Wayland window logic

The event logic of a Wayland window with an OpenGL ES drawing context.

- `src/protocol.rs`: protocol constants, the globals the window binds, and
  the `Action`s an event handler asks its caller to perform.
- `src/window.rs`: `WaylandWindow`, its state, and one handler per
  compositor event, each specified by a spec function of the state and the
  event that gives the next state and the actions, in order.
- `src/laws.rs`: properties that span events (fullscreen toggling, restoring
  the window size, seat capabilities settling, frame timing, teardown).
- `app/`: the libwayland, wayland-cursor, wayland-egl and EGL calls; it
  performs the actions and hands the results back to the window.
