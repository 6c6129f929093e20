//! What stands between the render loop and the screen.

pub mod egl;
