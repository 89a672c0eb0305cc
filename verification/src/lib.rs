//! Event logic of a Wayland window with an OpenGL ES drawing context:
//! what the window does with each event the compositor sends, stated as
//! state changes and the requests it answers with.
pub mod protocol;
pub mod window;
pub mod laws;
